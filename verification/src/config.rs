//! The credentials the client logs in with.
use crate::document::{field, get_field, is_string, json_model, owned_text, JsonModel};
use json::JsonValue;
use vstd::prelude::*;

verus! {

/// The application key pair used to authorize against B2.
#[derive(Debug)]
pub struct Config {
    pub id: String,
    pub key: String,
}

impl Clone for Config {
    fn clone(&self) -> (res: Config)
        ensures
            res.id@ == self.id@,
            res.key@ == self.key@,
    {
        Config { id: self.id.clone(), key: self.key.clone() }
    }
}

impl Config {
    /// Builds a configuration from a key id and an application key.
    pub fn new(id: String, key: String) -> (res: Config)
        ensures
            res.id@ == id@,
            res.key@ == key@,
    {
        Config { id: id, key: key }
    }

    /// Reads a configuration from a credentials document: the strings under
    /// `keyID` and `applicationKey`. A missing or non-string `keyID` gives
    /// `not_found-keyID`; then a missing or non-string `applicationKey` gives
    /// `not_found-applicationKey`.
    pub fn from_json(data: &JsonValue) -> (res: Result<Config, &'static str>)
        ensures
            !(field(json_model(*data), "keyID"@) is Text) ==> res == Err::<Config, &'static str>(
                "not_found-keyID",
            ),
            field(json_model(*data), "keyID"@) is Text && !(field(
                json_model(*data),
                "applicationKey"@,
            ) is Text) ==> res == Err::<Config, &'static str>("not_found-applicationKey"),
            field(json_model(*data), "keyID"@) is Text && field(
                json_model(*data),
                "applicationKey"@,
            ) is Text ==> (res matches Ok(c) && JsonModel::Text(c.id@) == field(
                json_model(*data),
                "keyID"@,
            ) && JsonModel::Text(c.key@) == field(json_model(*data), "applicationKey"@)),
    {
        let id_field = get_field(data, "keyID");
        if !is_string(id_field) {
            return Err("not_found-keyID");
        }
        let key_field = get_field(data, "applicationKey");
        if !is_string(key_field) {
            return Err("not_found-applicationKey");
        }
        Ok(Config { id: owned_text(id_field), key: owned_text(key_field) })
    }
}

} // verus!

//! A fixed JSON document.

use vstd::prelude::*;

verus! {

/// The document's fields.
#[derive(Debug)]
pub struct Data {
    pub count: i32,
    pub username: String,
    pub message: String,
}

/// The document: always the same three values.
pub fn get_json() -> (data: Data)
    ensures
        data.count == 2023,
        data.username@ == "felix"@,
        data.message@ == "https://github.com/FMFigueroa"@,
{
    Data {
        count: 2023,
        username: "felix".to_owned(),
        message: "https://github.com/FMFigueroa".to_owned(),
    }
}

} // verus!

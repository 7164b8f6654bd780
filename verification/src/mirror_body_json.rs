//! Echoes a posted profile with the server's own fields added.

use vstd::prelude::*;

verus! {

/// What the client posts.
#[derive(Debug)]
pub struct MirrorJson {
    pub profile: String,
    pub message: String,
}

/// What the server answers.
#[derive(Debug)]
pub struct MirrorJsonResponse {
    pub id: i32,
    pub profile: String,
    pub message: String,
    pub message_from_server: String,
    pub github: String,
}

/// Hands the posted profile and message back unchanged, under id 1, with the
/// server's greeting and link.
pub fn mirror_body_json(body: MirrorJson) -> (response: MirrorJsonResponse)
    ensures
        response.id == 1,
        response.profile@ == body.profile@,
        response.message@ == body.message@,
        response.message_from_server@ == "Hello from Axum"@,
        response.github@ == "https://github.com/FMFigueroa"@,
{
    MirrorJsonResponse {
        id: 1,
        profile: body.profile,
        message: body.message,
        message_from_server: "Hello from Axum".to_owned(),
        github: "https://github.com/FMFigueroa".to_owned(),
    }
}

} // verus!

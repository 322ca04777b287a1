use vstd::prelude::*;

verus! {

/// A user's request to change their profile.
#[derive(Clone, Debug)]
pub struct EditUserSchema {
    pub token: String,
    pub name: Option<String>,
    pub email: Option<String>,
    pub photo: Option<String>,
    pub old_password: Option<String>,
    pub new_password: Option<String>,
    pub confirm_password: Option<String>,
}

#[derive(Clone, Debug)]
pub struct CreateConversationRequest {
    pub token: String,
    pub og_id: String,
    pub title: String,
}

#[derive(Clone, Debug)]
pub struct GetConversationsRequest {
    pub token: String,
    pub og_id: String,
}

#[derive(Clone, Debug)]
pub struct StoreOGRequest {
    pub token: String,
    pub title: String,
    pub subtitle: String,
    pub content: String,
    pub og_type: Option<String>,
}

#[derive(Clone, Debug)]
pub struct UpdateOGContentRequest {
    pub og_id: String,
    pub new_content: String,
}

#[derive(Clone, Debug)]
pub struct GetOGsForUserRequest {
    pub token: String,
}

/// A request to generate content from an outline; `outline` is the text that
/// `parse_outline` reads, in `language`.
#[derive(Clone, Debug)]
pub struct GenerateOGRequest {
    pub title: String,
    pub subtitle: String,
    pub token: String,
    pub model: String,
    pub outline: String,
    pub subtopics: u64,
    pub details: u64,
    pub language: String,
    pub max_length: u64,
}

#[derive(Clone, Debug)]
pub struct GetOGForUserRequest {
    pub token: String,
    pub og_id: String,
}

#[derive(Clone, Debug)]
pub struct AIRequest {
    pub token: String,
    pub text: String,
}

#[derive(Clone, Debug)]
pub struct GetDetailContentRequest {
    pub html: String,
    pub og_id: String,
}

} // verus!

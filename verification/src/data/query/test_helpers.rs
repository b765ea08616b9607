//! Values for trying the gateway out.

use crate::data::model;
use crate::data::{is_random_uuid, uuid_text, DatabaseId};
use crate::domain::time::Time;
use vstd::prelude::*;
use vstd::string::StringExecFns;

verus! {

/// The content that [`model_new_clip`] gives the clip with a code.
pub open spec fn sample_content(shortcode: Seq<char>) -> Seq<char> {
    "content for clip '"@ + shortcode + "'"@
}

/// Names the row stored under the code with the given text.
pub fn model_get_clip(shortcode: &str) -> (r: model::GetClip)
    ensures
        r@ == shortcode@,
{
    model::GetClip { shortcode: shortcode.to_owned() }
}

/// The values of a plain row to insert under the code with the given text:
/// a fresh random identifier, a content that names the code, the clock's
/// reading as the creation time, and neither title, password nor
/// expiration.
pub fn model_new_clip(shortcode: &str) -> (r: model::NewClip)
    ensures
        r@.shortcode == shortcode@,
        r@.content == sample_content(shortcode@),
        r@.title is None,
        r@.password is None,
        r@.expires_at is None,
        exists|id: u128| #![trigger is_random_uuid(id)] is_random_uuid(id) && r@.id == uuid_text(id),
{
    let mut content = "content for clip '".to_owned();
    content.append(shortcode);
    content.append("'");
    let id = DatabaseId::new();
    assert(is_random_uuid(id@));
    model::NewClip {
        id: id.into_inner(),
        title: None,
        content,
        shortcode: shortcode.to_owned(),
        created_at: Time::now().to_timestamp(),
        expires_at: None,
        password: None,
    }
}

} // verus!

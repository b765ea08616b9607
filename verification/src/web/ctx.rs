//! What each page needs to be rendered.

use crate::{Clip, ShortCode};
use vstd::prelude::*;

verus! {

/// What the renderer asks of the context of a page.
pub trait PageContext {
    /// The title of the page.
    fn title(&self) -> &str;

    /// The template that renders the page.
    fn template_path(&self) -> &str;

    /// The template that the page is set into.
    fn parent(&self) -> &str;
}

/// The landing page.
#[derive(Debug)]
pub struct Home {}

impl Default for Home {
    fn default() -> (r: Self) {
        Self {  }
    }
}

impl PageContext for Home {
    fn title(&self) -> (r: &str)
        ensures
            r@ == "Stash your clipboard"@,
    {
        "Stash your clipboard"
    }

    fn template_path(&self) -> (r: &str)
        ensures
            r@ == "home"@,
    {
        "home"
    }

    fn parent(&self) -> (r: &str)
        ensures
            r@ == "base"@,
    {
        "base"
    }
}

/// The page that shows a clip.
#[derive(Debug)]
pub struct ClipView {
    pub clip: Clip,
}

impl ClipView {
    /// The page that shows `clip`.
    pub fn new(clip: Clip) -> (r: Self)
        ensures
            r.clip == clip,
    {
        ClipView { clip }
    }
}

impl PageContext for ClipView {
    fn title(&self) -> (r: &str)
        ensures
            r@ == "Clip"@,
    {
        "Clip"
    }

    fn template_path(&self) -> (r: &str)
        ensures
            r@ == "clip"@,
    {
        "clip"
    }

    fn parent(&self) -> (r: &str)
        ensures
            r@ == "base"@,
    {
        "base"
    }
}

/// The page that asks for the password of a clip.
#[derive(Debug)]
pub struct ClipRequirePassword {
    shortcode: ShortCode,
}

impl ClipRequirePassword {
    /// The page that asks for the password of the clip under `shortcode`.
    pub fn new(shortcode: ShortCode) -> (r: Self)
        ensures
            r.shortcode()@ == shortcode@,
    {
        ClipRequirePassword { shortcode }
    }

    /// The code of the clip that the page is about.
    pub closed spec fn shortcode(&self) -> ShortCode {
        self.shortcode
    }

    /// The code of the clip that the page is about.
    pub fn code(&self) -> (r: &ShortCode)
        ensures
            r@ == self.shortcode()@,
    {
        &self.shortcode
    }
}

impl PageContext for ClipRequirePassword {
    fn title(&self) -> (r: &str)
        ensures
            r@ == "Password required"@,
    {
        "Password required"
    }

    fn template_path(&self) -> (r: &str)
        ensures
            r@ == "clip_need_password"@,
    {
        "clip_need_password"
    }

    fn parent(&self) -> (r: &str)
        ensures
            r@ == "base"@,
    {
        "base"
    }
}

/// The page that offers to generate an API key.
#[derive(Debug)]
pub struct ApiKeyGenerate {}

impl Default for ApiKeyGenerate {
    fn default() -> (r: Self) {
        Self {  }
    }
}

impl PageContext for ApiKeyGenerate {
    fn title(&self) -> (r: &str)
        ensures
            r@ == "Generate Api Key"@,
    {
        "Generate Api Key"
    }

    fn template_path(&self) -> (r: &str)
        ensures
            r@ == "generate_api_key"@,
    {
        "generate_api_key"
    }

    fn parent(&self) -> (r: &str)
        ensures
            r@ == "base"@,
    {
        "base"
    }
}

/// The page that shows an API key.
#[derive(Debug)]
pub struct ApiKey {}

impl Default for ApiKey {
    fn default() -> (r: Self) {
        Self {  }
    }
}

impl PageContext for ApiKey {
    fn title(&self) -> (r: &str)
        ensures
            r@ == "Api Key"@,
    {
        "Api Key"
    }

    fn template_path(&self) -> (r: &str)
        ensures
            r@ == "api_key"@,
    {
        "api_key"
    }

    fn parent(&self) -> (r: &str)
        ensures
            r@ == "base"@,
    {
        "base"
    }
}

} // verus!

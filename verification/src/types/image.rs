//! Artwork references attached to tracks and users.

use vstd::prelude::*;

use crate::json::{obj_lookup, FromJson, Json};
use crate::types::{opt_str, opt_str_spec, opt_str_view};

verus! {

/// The size class of an image, as the API names them.
#[derive(Debug, Clone, Copy, PartialEq, Eq, Structural)]
pub enum ImageSize {
    Small,
    Medium,
    Large,
    ExtraLarge,
}

impl View for ImageSize {
    type V = ImageSize;

    open spec fn view(&self) -> ImageSize {
        *self
    }
}

impl FromJson for ImageSize {
    /// One of the strings `"small"`, `"medium"`, `"large"`,
    /// `"extralarge"`, exactly.
    open spec fn from_json_spec(v: Json) -> Option<Self::V> {
        match v {
            Json::Str(s) => if s@ == "small"@ {
                Some(ImageSize::Small)
            } else if s@ == "medium"@ {
                Some(ImageSize::Medium)
            } else if s@ == "large"@ {
                Some(ImageSize::Large)
            } else if s@ == "extralarge"@ {
                Some(ImageSize::ExtraLarge)
            } else {
                None
            },
            _ => None,
        }
    }

    fn from_json(v: &Json) -> (r: Option<Self>) {
        match v {
            Json::Str(s) => {
                if s.eq(&String::from_str("small")) {
                    Some(ImageSize::Small)
                } else if s.eq(&String::from_str("medium")) {
                    Some(ImageSize::Medium)
                } else if s.eq(&String::from_str("large")) {
                    Some(ImageSize::Large)
                } else if s.eq(&String::from_str("extralarge")) {
                    Some(ImageSize::ExtraLarge)
                } else {
                    None
                }
            },
            _ => None,
        }
    }
}

/// One artwork reference: its size class and, when given, its address.
#[derive(Debug, Clone, PartialEq)]
pub struct Image {
    pub size: ImageSize,
    pub url: Option<String>,
}

/// The mathematical shape of an [`Image`].
#[verifier::ext_equal]
pub struct ImageModel {
    pub size: ImageSize,
    pub url: Option<Seq<char>>,
}

impl View for Image {
    type V = ImageModel;

    open spec fn view(&self) -> ImageModel {
        ImageModel { size: self.size, url: opt_str_view(self.url) }
    }
}

impl FromJson for Image {
    /// An object with a required `size` field naming a size class and an
    /// optional string `url` field.
    open spec fn from_json_spec(v: Json) -> Option<Self::V> {
        match v {
            Json::Obj(entries) => match obj_lookup(entries@, "size"@) {
                Some(sv) => match ImageSize::from_json_spec(sv) {
                    Some(size) => match opt_str_spec(entries@, "url"@) {
                        Some(url) => Some(ImageModel { size, url }),
                        None => None,
                    },
                    None => None,
                },
                None => None,
            },
            _ => None,
        }
    }

    fn from_json(v: &Json) -> (r: Option<Self>) {
        match v {
            Json::Obj(entries) => {
                let size = match crate::json::obj_get(entries, &String::from_str("size")) {
                    Some(sv) => match ImageSize::from_json(sv) {
                        Some(size) => size,
                        None => {
                            return None;
                        },
                    },
                    None => {
                        return None;
                    },
                };
                match opt_str(entries, &String::from_str("url")) {
                    Some(url) => Some(Image { size, url }),
                    None => None,
                }
            },
            _ => None,
        }
    }
}

} // verus!

//! Lazily resolved box art: a game's image path is searched for on demand
//! and the outcome cached.

use vstd::prelude::*;

verus! {

/// The resolution state of a game's box-art image.
#[derive(Debug, PartialEq, Eq)]
pub enum LazyImage {
    /// Not looked up yet; holds the game's own path to search from.
    Unknown(String),
    /// The image was found at this path.
    Found(String),
    /// The search came up empty.
    NotFound,
}

impl LazyImage {
    /// Wraps what the database knows: a recorded image path is final, and
    /// without one the lookup starts from the game's path.
    pub fn from_path(path: &String, image: Option<String>) -> (r: LazyImage)
        ensures
            match image {
                Some(p) => r == LazyImage::Found(p),
                None => (r matches LazyImage::Unknown(q) && q@ == path@),
            },
    {
        match image {
            Some(image) => LazyImage::Found(image),
            None => LazyImage::Unknown(path.clone()),
        }
    }

    /// The found image path, without searching.
    pub fn try_image(&self) -> (r: Option<&String>)
        ensures
            match self {
                LazyImage::Found(p) => (r matches Some(q) && q == p),
                _ => r is None,
            },
    {
        match self {
            LazyImage::Found(path) => Some(path),
            _ => None,
        }
    }

    /// The found image path, cloned.
    pub fn try_image_cloned(&self) -> (r: Option<String>)
        ensures
            match self {
                LazyImage::Found(p) => (r matches Some(q) && q@ == p@),
                _ => r is None,
            },
    {
        match self {
            LazyImage::Found(path) => Some(path.clone()),
            _ => None,
        }
    }

    /// Caches the outcome of a search that the surrounding process ran
    /// over the image folders.
    pub fn resolve(&mut self, found: Option<String>)
        ensures
            *final(self) == match found {
                Some(p) => LazyImage::Found(p),
                None => LazyImage::NotFound,
            },
    {
        *self = match found {
            Some(p) => LazyImage::Found(p),
            None => LazyImage::NotFound,
        };
    }
}

impl Clone for LazyImage {
    fn clone(&self) -> (res: Self)
        ensures
            res == *self,
    {
        match self {
            LazyImage::Unknown(p) => LazyImage::Unknown(p.clone()),
            LazyImage::Found(p) => LazyImage::Found(p.clone()),
            LazyImage::NotFound => LazyImage::NotFound,
        }
    }
}

} // verus!

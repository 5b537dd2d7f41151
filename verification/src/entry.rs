//! A browsable game entry, as shown in the recents and search screens.

use vstd::prelude::*;
use vstd::string::StringSliceAdditionalSpecFns;

use crate::bytes::{ascii_chars, bytes_range, bytes_to_string, find_last_byte, rfind_byte_before};
use vstd::utf8::encode_utf8;
use crate::database::GameRow;
use crate::lazy_image::LazyImage;

verus! {

/// One game entry.
#[derive(Debug, PartialEq, Eq)]
pub struct Game {
    pub name: String,
    pub full_name: String,
    pub path: String,
    pub image: LazyImage,
    pub extension: String,
    pub core: Option<String>,
    pub favorite: bool,
    pub screenshot_path: Option<String>,
}

/// The extension of a path's bytes: what follows the final dot of the
/// part after the final slash; empty when that part has no dot.
pub open spec fn spec_extension(bs: Seq<u8>) -> Seq<u8> {
    let name = bs.skip(find_last_byte(bs, 47) + 1);
    let dot = find_last_byte(name, 46);
    if dot <= -1 {
        Seq::empty()
    } else {
        name.skip(dot + 1)
    }
}

/// The extension of a path, as the launcher matches it.
pub fn path_extension(path: &String) -> (r: Vec<u8>)
    ensures
        r@ =~= spec_extension(encode_utf8(path@)),
{
    let bs = path.as_str().as_bytes();
    let n = bs.len();
    assert(bs@.take(n as int) =~= bs@);
    let name_start: usize = match rfind_byte_before(bs, 47, n) {
        Some(i) => i + 1,
        None => 0,
    };
    let ghost name = bs@.skip(name_start as int);
    proof {
        crate::bytes::lemma_find_last_byte_bounds(bs@, 47);
        crate::bytes::lemma_find_last_byte_skip(bs@, 46, name_start as int);
    }
    let dot = rfind_byte_before(bs, 46, n);
    match dot {
        Some(d) => {
            if d + 1 > name_start {
                let r = bytes_range(bs, d + 1, n);
                assert(r@ =~= spec_extension(bs@));
                r
            } else {
                assert(spec_extension(bs@) =~= Seq::<u8>::empty());
                Vec::new()
            }
        },
        None => {
            assert(spec_extension(bs@) =~= Seq::<u8>::empty());
            Vec::new()
        },
    }
}

impl Game {
    /// Builds an entry from a database row; the extension is read off the
    /// path and the image is resolved lazily.
    pub fn from_row(row: &GameRow) -> (g: Game)
        ensures
            g.name@ == row.name@,
            g.full_name@ == row.name@,
            g.path@ == row.path@,
            g.core == row.core,
            g.favorite == row.favorite,
            g.screenshot_path == row.screenshot_path,
            g.extension@ == ascii_chars(spec_extension(encode_utf8(row.path@))),
            match row.image {
                Some(p) => g.image == LazyImage::Found(p),
                None => (g.image matches LazyImage::Unknown(q) && q@ == row.path@),
            },
    {
        let image = LazyImage::from_path(
            &row.path,
            match &row.image {
                Some(p) => Some(p.clone()),
                None => None,
            },
        );
        let ext_bytes = path_extension(&row.path);
        let len = ext_bytes.len();
        let extension = bytes_to_string(ext_bytes.as_slice(), 0, len);
        assert(ext_bytes@.subrange(0, len as int) =~= ext_bytes@);
        Game {
            name: row.name.clone(),
            full_name: row.name.clone(),
            path: row.path.clone(),
            image,
            extension,
            core: match &row.core {
                Some(c) => Some(c.clone()),
                None => None,
            },
            favorite: row.favorite,
            screenshot_path: match &row.screenshot_path {
                Some(p) => Some(p.clone()),
                None => None,
            },
        }
    }
}

impl Clone for Game {
    fn clone(&self) -> (res: Self)
        ensures
            res == *self,
    {
        Game {
            name: self.name.clone(),
            full_name: self.full_name.clone(),
            path: self.path.clone(),
            image: self.image.clone(),
            extension: self.extension.clone(),
            core: match &self.core {
                Some(c) => Some(c.clone()),
                None => None,
            },
            favorite: self.favorite,
            screenshot_path: match &self.screenshot_path {
                Some(p) => Some(p.clone()),
                None => None,
            },
        }
    }
}

} // verus!

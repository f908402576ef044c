//! The parameters of the listing requests, and the list length they ask for.
use vstd::prelude::*;

verus! {

/// How many entries a listing returns when the request does not say.
pub const DEFAULT_LIST_LEN: u32 = 10;

/// The length that a listing request asks for: `size`, or the default.
pub open spec fn requested_len(size: Option<u32>) -> u32 {
    match size {
        Some(n) => n,
        None => DEFAULT_LIST_LEN,
    }
}

/// Computes `requested_len`.
pub fn list_len(size: Option<u32>) -> (r: u32)
    ensures
        r == requested_len(size),
{
    match size {
        Some(n) => n,
        None => DEFAULT_LIST_LEN,
    }
}

/// Which albums an album listing returns.
#[derive(Debug, Clone, Copy, PartialEq, Eq, Structural)]
pub enum AlbumListType {
    Random,
    Newest,
}

#[derive(Debug, Clone, Copy)]
pub struct AlbumListParameters {
    pub list_type: AlbumListType,
    pub size: Option<u32>,
    pub offset: Option<u32>,
}

impl AlbumListParameters {
    pub fn len(&self) -> (r: u32)
        ensures
            r == requested_len(self.size),
    {
        list_len(self.size)
    }
}

#[derive(Debug, Clone, Copy)]
pub struct ArtistListParameters {
    pub size: Option<u32>,
    pub offset: Option<u32>,
}

impl ArtistListParameters {
    pub fn len(&self) -> (r: u32)
        ensures
            r == requested_len(self.size),
    {
        list_len(self.size)
    }
}

#[derive(Debug, Clone, Copy)]
pub struct BookListParameters {
    pub size: Option<u32>,
    pub offset: Option<u32>,
}

impl BookListParameters {
    pub fn len(&self) -> (r: u32)
        ensures
            r == requested_len(self.size),
    {
        list_len(self.size)
    }
}

#[derive(Debug, Clone, Copy)]
pub struct GetPlaylistsParameters {
    pub size: Option<u32>,
    pub offset: Option<u32>,
}

impl GetPlaylistsParameters {
    pub fn len(&self) -> (r: u32)
        ensures
            r == requested_len(self.size),
    {
        list_len(self.size)
    }
}

} // verus!

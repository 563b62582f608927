//! What each handler replies, as a function of what the filesystem showed.

use vstd::prelude::*;

use crate::catalog::collect_tunes;
use crate::catalog::tunes_of;
use crate::catalog::views_of;
use crate::json::render_songs_json;
use crate::json::songs_json;

verus! {

/// What one reading of the tunes directory showed: the directory is missing
/// (or is no directory at all), or every entry's name was read, or the walk
/// failed partway through.
pub enum DirListing {
    Missing,
    Entries(Vec<String>),
    ReadError,
}

/// One HTTP reply as the handlers shape it: a status code and a body.
pub struct Reply {
    pub status: u16,
    pub body: String,
}

/// The status the listing handler owes for each observation: a failed walk
/// is the one request-level error, status 500; a missing directory is not
/// an error.
pub open spec fn listing_status(l: DirListing) -> u16 {
    match l {
        DirListing::ReadError => 500,
        _ => 200,
    }
}

/// The body the listing handler owes: the JSON listing of the tunes among
/// the entries, the empty listing for a missing directory, and nothing for
/// a failed walk.
pub open spec fn listing_body(l: DirListing) -> Seq<char> {
    match l {
        DirListing::Missing => songs_json(Seq::empty()),
        DirListing::Entries(e) => songs_json(tunes_of(views_of(e@))),
        DirListing::ReadError => Seq::empty(),
    }
}

/// Builds the listing handler's reply from one observation of the tunes
/// directory. A missing directory deliberately degrades to the empty
/// listing with status 200 rather than an error; a walk that failed
/// partway fails the whole request with status 500 and no partial result;
/// otherwise the body lists exactly the entries whose extension is `mp3`.
pub fn tunes_reply(listing: DirListing) -> (r: Reply)
    ensures
        r.status == listing_status(listing),
        r.body@ == listing_body(listing),
{
    match listing {
        DirListing::Missing => {
            let none: Vec<String> = Vec::new();
            let body = render_songs_json(&none);
            proof {
                assert(views_of(none@) =~= Seq::<Seq<char>>::empty());
            }
            Reply { status: 200, body }
        },
        DirListing::Entries(entries) => {
            let songs = collect_tunes(&entries);
            let body = render_songs_json(&songs);
            Reply { status: 200, body }
        },
        DirListing::ReadError => Reply { status: 500, body: String::new() },
    }
}

/// How an attempt to open a requested file ended, as a handler sees it.
pub enum FetchOutcome {
    /// The file exists and could be opened: its bytes become the body.
    Found,
    /// The path resolves to no existing file.
    Missing,
    /// The filesystem denied access.
    Denied,
    /// Any other I/O failure.
    OtherError,
}

/// The status the home-page and single-tune handlers owe for each outcome:
/// 404 is reserved for a missing file, and every other failure — access
/// denied included — is an unexpected I/O error, status 500.
pub open spec fn page_status(o: FetchOutcome) -> u16 {
    match o {
        FetchOutcome::Found => 200,
        FetchOutcome::Missing => 404,
        FetchOutcome::Denied => 500,
        FetchOutcome::OtherError => 500,
    }
}

/// The status the static asset responder owes for each outcome: 404 for a
/// missing path, 403 when access is denied, 500 for any other I/O failure.
pub open spec fn asset_status(o: FetchOutcome) -> u16 {
    match o {
        FetchOutcome::Found => 200,
        FetchOutcome::Missing => 404,
        FetchOutcome::Denied => 403,
        FetchOutcome::OtherError => 500,
    }
}

/// Maps a file-opening outcome to the status the home page and the
/// single-tune fetch owe: 200 for a served file, 404 for a missing one,
/// and 500 for any other I/O failure, access denied among them.
pub fn status_for_page(o: &FetchOutcome) -> (s: u16)
    ensures
        s == page_status(*o),
{
    match o {
        FetchOutcome::Found => 200,
        FetchOutcome::Missing => 404,
        FetchOutcome::Denied => 500,
        FetchOutcome::OtherError => 500,
    }
}

/// Maps a file-opening outcome to the status the static asset responder
/// owes: 200 for a served file, 404 for a missing one, 403 when access is
/// denied, 500 for any other I/O failure.
pub fn status_for_asset(o: &FetchOutcome) -> (s: u16)
    ensures
        s == asset_status(*o),
{
    match o {
        FetchOutcome::Found => 200,
        FetchOutcome::Missing => 404,
        FetchOutcome::Denied => 403,
        FetchOutcome::OtherError => 500,
    }
}

/// Repeating the listing request against an unchanged observation of the
/// tunes directory yields the identical reply: status and body are a
/// function of that observation alone.
pub proof fn lemma_listing_reply_deterministic(a: DirListing, b: DirListing)
    requires
        a == b,
    ensures
        listing_status(a) == listing_status(b),
        listing_body(a) == listing_body(b),
{
}

/// Repeating a file request against an unchanged opening outcome yields
/// the identical status, on the page routes and on the asset route alike:
/// each status is a function of that outcome alone.
pub proof fn lemma_fetch_status_deterministic(a: FetchOutcome, b: FetchOutcome)
    requires
        a == b,
    ensures
        page_status(a) == page_status(b),
        asset_status(a) == asset_status(b),
{
}

} // verus!

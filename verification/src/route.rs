//! The dispatch table: which handler serves a given GET request path, and
//! the filesystem path a requested tune resolves to.

use vstd::prelude::*;

verus! {

/// Where a GET request path is dispatched.
pub enum Route {
    /// `/`: the home page, the bytes of the fixed index file.
    Home,
    /// `/tunes`: the JSON listing of the tunes directory.
    Listing,
    /// `/tunes/{filename}`: one tune, fetched by its raw file name.
    Song(String),
    /// `/static` or `/static/...`: a static asset, or a directory index.
    Asset(String),
    /// Any other path: no handler is bound to it.
    NoRoute,
}

pub open spec fn root_path() -> Seq<char> {
    seq!['/']
}

pub open spec fn tunes_path() -> Seq<char> {
    seq!['/', 't', 'u', 'n', 'e', 's']
}

pub open spec fn song_prefix() -> Seq<char> {
    seq!['/', 't', 'u', 'n', 'e', 's', '/']
}

pub open spec fn static_path() -> Seq<char> {
    seq!['/', 's', 't', 'a', 't', 'i', 'c']
}

pub open spec fn asset_prefix() -> Seq<char> {
    seq!['/', 's', 't', 'a', 't', 'i', 'c', '/']
}

/// A single-tune request: `/tunes/` followed by exactly one nonempty path
/// segment — the file name — which may not contain a further slash.
pub open spec fn is_song_path(p: Seq<char>) -> bool {
    &&& p.len() > 7
    &&& p.take(7) == song_prefix()
    &&& forall|i: int| 7 <= i < p.len() ==> p[i] != '/'
}

/// A static asset request: the static root itself, or `/static/` followed
/// by any remainder, which may span several segments.
pub open spec fn is_asset_path(p: Seq<char>) -> bool {
    p == static_path() || (p.len() >= 8 && p.take(8) == asset_prefix())
}

/// The path under the static root that an asset request names.
pub open spec fn asset_rest(p: Seq<char>) -> Seq<char> {
    if p == static_path() {
        Seq::empty()
    } else {
        p.skip(8)
    }
}

/// Dispatches a request path as the route table binds the four handlers:
/// `/` to the home page, `/tunes` to the listing, `/tunes/{filename}` with
/// one nonempty slash-free segment to the single-tune fetch, and `/static`
/// or `/static/...` to the static asset responder. Every other path has no
/// route.
pub fn route(path: &str) -> (r: Route)
    ensures
        path@ == root_path() ==> r == Route::Home,
        path@ == tunes_path() ==> r == Route::Listing,
        is_song_path(path@) ==> (r matches Route::Song(f) && f@ == path@.skip(7)),
        is_asset_path(path@) ==> (r matches Route::Asset(rest) && rest@ == asset_rest(path@)),
        !(path@ == root_path() || path@ == tunes_path() || is_song_path(path@) || is_asset_path(
            path@,
        )) ==> r == Route::NoRoute,
{
    let n = path.unicode_len();
    if n == 1 && path.get_char(0) == '/' {
        proof {
            assert(path@ =~= root_path());
        }
        return Route::Home;
    }
    if n >= 6 && path.get_char(0) == '/' && path.get_char(1) == 't' && path.get_char(2) == 'u'
        && path.get_char(3) == 'n' && path.get_char(4) == 'e' && path.get_char(5) == 's' {
        if n == 6 {
            proof {
                assert(path@ =~= tunes_path());
            }
            return Route::Listing;
        }
        if path.get_char(6) == '/' {
            let mut clean = true;
            let mut i: usize = 7;
            while i < n
                invariant
                    7 <= i <= n,
                    n == path@.len(),
                    clean == (forall|j: int| 7 <= j < i ==> path@[j] != '/'),
                decreases n - i,
            {
                if path.get_char(i) == '/' {
                    clean = false;
                }
                i = i + 1;
            }
            if n > 7 && clean {
                proof {
                    assert(path@.take(7) =~= song_prefix());
                    assert(is_song_path(path@));
                }
                return Route::Song(String::from_str(path.substring_char(7, n)));
            }
            proof {
                if !clean {
                    let k = choose|j: int| 7 <= j < n && path@[j] == '/';
                    assert(path@[k] == '/');
                }
                assert(!is_song_path(path@));
                assert(path@[1] == 't');
                assert(path@.len() != 7 || path@[1] != static_path()[1]);
                assert(path@ != static_path());
                assert(path@.len() >= 8 ==> path@.take(8)[1] == 't');
                assert(!is_asset_path(path@));
            }
            return Route::NoRoute;
        }
        proof {
            assert(path@[6] != '/');
            assert(is_song_path(path@) ==> path@.take(7)[6] == '/');
            assert(!is_song_path(path@));
            assert(path@[1] == 't');
            assert(path@ != static_path());
            assert(path@.len() >= 8 ==> path@.take(8)[1] == 't');
            assert(!is_asset_path(path@));
        }
        return Route::NoRoute;
    }
    if n >= 7 && path.get_char(0) == '/' && path.get_char(1) == 's' && path.get_char(2) == 't'
        && path.get_char(3) == 'a' && path.get_char(4) == 't' && path.get_char(5) == 'i'
        && path.get_char(6) == 'c' {
        if n == 7 {
            proof {
                assert(path@ =~= static_path());
            }
            return Route::Asset(String::new());
        }
        if path.get_char(7) == '/' {
            proof {
                assert(path@.take(8) =~= asset_prefix());
                assert(is_asset_path(path@));
                assert(path@ != static_path());
            }
            return Route::Asset(String::from_str(path.substring_char(8, n)));
        }
        proof {
            assert(path@[1] == 's');
            assert(path@ != tunes_path());
            assert(is_song_path(path@) ==> path@.take(7)[1] == 't');
            assert(!is_song_path(path@));
            assert(path@[7] != '/');
            assert(path@.len() >= 8 ==> path@.take(8)[7] == '/' || !is_asset_path(path@));
            assert(!is_asset_path(path@));
        }
        return Route::NoRoute;
    }
    proof {
        assert(path@ == root_path() ==> path@.len() == 1 && path@[0] == '/');
        assert(path@ != root_path());
        assert(path@ == tunes_path() ==> path@.len() == 6 && path@[0] == '/' && path@[1] == 't'
            && path@[2] == 'u' && path@[3] == 'n' && path@[4] == 'e' && path@[5] == 's');
        assert(path@ != tunes_path());
        if is_song_path(path@) {
            assert(path@.take(7)[0] == '/' && path@.take(7)[1] == 't' && path@.take(7)[2] == 'u'
                && path@.take(7)[3] == 'n' && path@.take(7)[4] == 'e' && path@.take(7)[5] == 's');
            assert(false);
        }
        if is_asset_path(path@) {
            if path@ == static_path() {
                assert(path@.len() == 7 && path@[0] == '/' && path@[1] == 's' && path@[2] == 't'
                    && path@[3] == 'a' && path@[4] == 't' && path@[5] == 'i' && path@[6] == 'c');
            } else {
                assert(path@.take(8)[0] == '/' && path@.take(8)[1] == 's' && path@.take(8)[2]
                    == 't' && path@.take(8)[3] == 'a' && path@.take(8)[4] == 't' && path@.take(8)[5]
                    == 'i' && path@.take(8)[6] == 'c');
            }
            assert(false);
        }
    }
    Route::NoRoute
}

/// The filesystem path for one requested tune: the tunes directory with the
/// raw file name appended, joined verbatim. Nothing here rejects parent
/// segments in the name; the route's caller decides whether to expose that.
pub fn song_path(filename: &str) -> (r: String)
    ensures
        r@ == seq!['t', 'u', 'n', 'e', 's', '/'] + filename@,
{
    let mut r = String::from_str("tunes/");
    proof {
        reveal_strlit("tunes/");
        assert(r@ =~= seq!['t', 'u', 'n', 'e', 's', '/']);
    }
    r.append(filename);
    r
}

} // verus!

//! Resolving a named asset in the "latest release" document of a release
//! feed.

use vstd::prelude::*;
use vstd::string::StringExecFns;
use crate::error::ErrorKind;
use crate::error::ErrorView;
use crate::error::InstallError;
use crate::error::outcome;
use crate::json::decoded_document;
use crate::json::Json;
use crate::json::JsonView;
use crate::text::decimal;
use crate::text::decimal_digits;
use crate::text::join3;
use crate::text::same_text;

verus! {

/// The address of the "latest release" document of `owner`'s `project`.
pub open spec fn spec_latest_release_url(owner: Seq<char>, project: Seq<char>) -> Seq<char> {
    "https://api.github.com/repos/"@ + owner + "/"@ + project + "/releases/latest"@
}

/// The address of the "latest release" document of `owner`'s `project`.
pub fn latest_release_url(owner: &str, project: &str) -> (url: String)
    ensures
        url@ == spec_latest_release_url(owner@, project@),
{
    let head = join3("https://api.github.com/repos/", owner, "/");
    join3(head.as_str(), project, "/releases/latest")
}

/// Whether an HTTP status code reports success: the codes 200 to 299.
pub open spec fn is_success(status: u16) -> bool {
    200 <= status < 300
}

/// The error for a feed that answered with `status`.
pub open spec fn status_failure(status: u16) -> ErrorView {
    ErrorView {
        kind: ErrorKind::Network,
        message: "Failed to fetch release info: "@ + decimal_digits(status as nat),
    }
}

/// Accepts a success status; any other is a network error that carries the
/// status code in its message.
pub fn check_status(status: u16) -> (r: Result<(), InstallError>)
    ensures
        is_success(status) ==> r is Ok,
        !is_success(status) ==> r is Err && r->Err_0@ == status_failure(status),
{
    if 200 <= status && status < 300 {
        Ok(())
    } else {
        let code = decimal(status as u64);
        let mut message = String::from_str("Failed to fetch release info: ");
        message.append(code.as_str());
        Err(InstallError { kind: ErrorKind::Network, message })
    }
}

/// The asset list of a release document: the elements of its `assets`
/// member, if it has one and that is an array.
pub open spec fn asset_list(feed: JsonView) -> Option<Seq<JsonView>> {
    match feed.member("assets"@) {
        Some(list) => list.as_array(),
        None => None,
    }
}

/// The name of an asset entry: its `name` member, if that is a string.
pub open spec fn asset_name(asset: JsonView) -> Option<Seq<char>> {
    match asset.member("name"@) {
        Some(name) => name.as_text(),
        None => None,
    }
}

/// The download location of an asset entry: its `browser_download_url`
/// member, if that is a string.
pub open spec fn asset_url(asset: JsonView) -> Option<Seq<char>> {
    match asset.member("browser_download_url"@) {
        Some(url) => url.as_text(),
        None => None,
    }
}

/// Entry `i` carries exactly the name `name`.
pub open spec fn names(assets: Seq<JsonView>, i: int, name: Seq<char>) -> bool {
    asset_name(assets[i]) == Some(name)
}

/// Entry `i` is the first of `assets` that carries the name `name`.
pub open spec fn is_first_match(assets: Seq<JsonView>, name: Seq<char>, i: int) -> bool {
    &&& 0 <= i < assets.len()
    &&& names(assets, i, name)
    &&& forall|j: int| 0 <= j < i ==> !#[trigger] names(assets, j, name)
}

/// Some entry of `assets` carries the name `name`.
pub open spec fn has_match(assets: Seq<JsonView>, name: Seq<char>) -> bool {
    exists|i: int| 0 <= i < assets.len() && #[trigger] names(assets, i, name)
}

/// The error for a release document without an asset list.
pub open spec fn no_asset_list() -> ErrorView {
    ErrorView { kind: ErrorKind::Parse, message: "No assets found in release"@ }
}

/// The error for a matching asset that has no download location.
pub open spec fn no_asset_url() -> ErrorView {
    ErrorView { kind: ErrorKind::Parse, message: "Asset URL not found"@ }
}

/// The error for an asset list in which nothing carries the name `name`.
pub open spec fn asset_not_found(name: Seq<char>) -> ErrorView {
    ErrorView {
        kind: ErrorKind::NotFound,
        message: "Asset '"@ + name + "' not found in latest release"@,
    }
}

/// What an asset entry that was selected by its name resolves to.
pub open spec fn entry_resolution(asset: JsonView) -> Result<Seq<char>, ErrorView> {
    match asset_url(asset) {
        Some(url) => Ok(url),
        None => Err(no_asset_url()),
    }
}

/// What resolving `name` in the release document `feed` yields: the
/// download location of the first entry named `name`.
pub open spec fn resolution(feed: JsonView, name: Seq<char>) -> Result<Seq<char>, ErrorView> {
    match asset_list(feed) {
        None => Err(no_asset_list()),
        Some(assets) => {
            if has_match(assets, name) {
                entry_resolution(assets[choose|i: int| is_first_match(assets, name, i)])
            } else {
                Err(asset_not_found(name))
            }
        },
    }
}

/// What resolving `name` in a feed response yields, given its status code
/// and what the decoder makes of its body.
pub open spec fn response_resolution(
    status: u16,
    document: Result<JsonView, Seq<char>>,
    name: Seq<char>,
) -> Result<Seq<char>, ErrorView> {
    if !is_success(status) {
        Err(status_failure(status))
    } else {
        match document {
            Err(complaint) => Err(ErrorView { kind: ErrorKind::Parse, message: complaint }),
            Ok(feed) => resolution(feed, name),
        }
    }
}

/// Two first matches are the same entry.
pub proof fn first_match_is_unique(assets: Seq<JsonView>, name: Seq<char>, i: int, j: int)
    requires
        is_first_match(assets, name, i),
        is_first_match(assets, name, j),
    ensures
        i == j,
{
    if i < j {
        assert(!names(assets, i, name));
    } else if j < i {
        assert(!names(assets, j, name));
    }
}

/// Where some entry carries the name, one of them is the first.
pub proof fn first_match_exists(assets: Seq<JsonView>, name: Seq<char>, k: int)
    requires
        0 <= k < assets.len(),
        names(assets, k, name),
    ensures
        exists|i: int| is_first_match(assets, name, i),
    decreases k,
{
    if exists|j: int| 0 <= j < k && names(assets, j, name) {
        let j = choose|j: int| 0 <= j < k && names(assets, j, name);
        first_match_exists(assets, name, j);
    } else {
        assert(is_first_match(assets, name, k));
    }
}

/// The download location of the first entry of `feed`'s asset list whose
/// name is exactly `asset_name`.
///
/// Entries are examined in the order of the list. An entry without a string
/// name matches nothing. The first entry that matches decides: if it has no
/// string download location the result is a parse error, later entries are
/// not consulted.
pub fn find_asset(feed: &Json, asset_name: &str) -> (r: Result<String, InstallError>)
    ensures
        outcome(r) == resolution(feed@, asset_name@),
{
    let list = match feed.member("assets") {
        Some(list) => list.as_array(),
        None => None,
    };
    let assets = match list {
        Some(assets) => assets,
        None => {
            return Err(InstallError::new(ErrorKind::Parse, "No assets found in release"));
        },
    };
    let ghost entries = asset_list(feed@)->Some_0;
    assert(entries =~= Seq::new(assets@.len(), |i: int| assets@[i]@));
    let mut i: usize = 0;
    while i < assets.len()
        invariant
            i <= assets.len(),
            asset_list(feed@) == Some(entries),
            entries.len() == assets@.len(),
            forall|j: int| 0 <= j < assets@.len() ==> #[trigger] entries[j] == assets@[j]@,
            forall|j: int| 0 <= j < i ==> !#[trigger] names(entries, j, asset_name@),
        decreases assets.len() - i,
    {
        let asset = &assets[i];
        let named = match asset.member("name") {
            Some(name) => name.as_str(),
            None => None,
        };
        let hit = match named {
            Some(name) => same_text(name, asset_name),
            None => false,
        };
        assert(hit == names(entries, i as int, asset_name@));
        if hit {
            let located = match asset.member("browser_download_url") {
                Some(url) => url.as_str(),
                None => None,
            };
            proof {
                assert(is_first_match(entries, asset_name@, i as int));
                let chosen = choose|k: int| is_first_match(entries, asset_name@, k);
                first_match_is_unique(entries, asset_name@, i as int, chosen);
            }
            return match located {
                Some(url) => Ok(url.to_owned()),
                None => Err(InstallError::new(ErrorKind::Parse, "Asset URL not found")),
            };
        }
        i += 1;
    }
    let message = join3("Asset '", asset_name, "' not found in latest release");
    Err(InstallError { kind: ErrorKind::NotFound, message })
}

/// Resolves the download location of the asset named `asset_name` from the
/// feed's response: its HTTP status code and its body.
///
/// A status outside 200..=299 is a network error and the body is not read.
/// A body that is not a JSON document is a parse error that carries the
/// decoder's message. Otherwise the result is that of [`find_asset`].
pub fn resolve_asset(status: u16, body: &[u8], asset_name: &str) -> (r: Result<
    String,
    InstallError,
>)
    ensures
        outcome(r) == response_resolution(status, decoded_document(body@), asset_name@),
{
    match check_status(status) {
        Err(error) => Err(error),
        Ok(()) => match Json::parse(body) {
            Err(message) => Err(InstallError { kind: ErrorKind::Parse, message }),
            Ok(feed) => find_asset(&feed, asset_name),
        },
    }
}

/// An asset list in which entry `i` is the first to carry the requested
/// name resolves to that entry's download location, whatever follows it.
pub proof fn first_match_wins(feed: JsonView, assets: Seq<JsonView>, name: Seq<char>, i: int)
    requires
        asset_list(feed) == Some(assets),
        is_first_match(assets, name, i),
    ensures
        resolution(feed, name) == entry_resolution(assets[i]),
        asset_url(assets[i]) is Some ==> resolution(feed, name) == Ok::<Seq<char>, ErrorView>(
            asset_url(assets[i])->Some_0,
        ),
{
    assert(names(assets, i, name));
    let chosen = choose|k: int| is_first_match(assets, name, k);
    first_match_is_unique(assets, name, i, chosen);
}

/// An asset list in which no entry carries the requested name resolves to
/// a `NotFound` error.
pub proof fn no_match_is_not_found(feed: JsonView, assets: Seq<JsonView>, name: Seq<char>)
    requires
        asset_list(feed) == Some(assets),
        forall|i: int| 0 <= i < assets.len() ==> asset_name(#[trigger] assets[i]) != Some(name),
    ensures
        resolution(feed, name) == Err::<Seq<char>, ErrorView>(asset_not_found(name)),
        resolution(feed, name)->Err_0.kind == ErrorKind::NotFound,
{
    if has_match(assets, name) {
        let i = choose|i: int| 0 <= i < assets.len() && #[trigger] names(assets, i, name);
        assert(asset_name(assets[i]) != Some(name));
    }
}

/// A document without an asset list, or whose `assets` member is not an
/// array, resolves to a `Parse` error.
pub proof fn missing_list_is_parse_error(feed: JsonView, name: Seq<char>)
    requires
        asset_list(feed) is None,
    ensures
        resolution(feed, name) == Err::<Seq<char>, ErrorView>(no_asset_list()),
        resolution(feed, name)->Err_0.kind == ErrorKind::Parse,
{
}

/// A resolution is a download location exactly when the list is present
/// and the first entry that carries the name has one; it is `NotFound`
/// exactly when the list is present and no entry carries the name; every
/// other resolution is a `Parse` error.
pub proof fn resolution_kinds(feed: JsonView, name: Seq<char>)
    ensures
        match resolution(feed, name) {
            Ok(url) => asset_list(feed) is Some && exists|i: int|
                is_first_match(asset_list(feed)->Some_0, name, i) && asset_url(
                    asset_list(feed)->Some_0[i],
                ) == Some(url),
            Err(error) => if error.kind == ErrorKind::NotFound {
                asset_list(feed) is Some && !has_match(asset_list(feed)->Some_0, name)
            } else {
                error.kind == ErrorKind::Parse
            },
        },
{
    if asset_list(feed) is Some {
        let assets = asset_list(feed)->Some_0;
        if has_match(assets, name) {
            let k = choose|k: int| 0 <= k < assets.len() && #[trigger] names(assets, k, name);
            first_match_exists(assets, name, k);
            let i = choose|i: int| is_first_match(assets, name, i);
            assert(is_first_match(assets, name, i));
        }
    }
}

} // verus!

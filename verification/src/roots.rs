//! Search roots: the directories that a client offers as file addresses.

use vstd::prelude::*;
use vstd::string::*;
use crate::text::{strip_prefix, without_prefix};

verus! {

/// The scheme that marks an address as a path on disk.
pub const FILE_URI_PREFIX: &'static str = "file://";

/// The paths of the addresses that name a file, in order; other addresses
/// are left out.
pub open spec fn root_paths(uris: Seq<Seq<char>>) -> Seq<Seq<char>>
    decreases uris.len(),
{
    if uris.len() == 0 {
        Seq::empty()
    } else {
        match without_prefix(uris.last(), FILE_URI_PREFIX@) {
            Some(path) => root_paths(uris.drop_last()).push(path),
            None => root_paths(uris.drop_last()),
        }
    }
}

/// Turns the addresses of the client's roots into search paths.
pub fn paths_from_root_uris(uris: &Vec<String>) -> (r: Vec<String>)
    ensures
        r.deep_view() == root_paths(uris.deep_view()),
{
    let mut paths: Vec<String> = Vec::new();
    let mut i: usize = 0;
    assert(uris.deep_view().take(0) =~= Seq::empty());
    assert(paths.deep_view() =~= Seq::empty());
    while i < uris.len()
        invariant
            i <= uris.len(),
            paths.deep_view() == root_paths(uris.deep_view().take(i as int)),
        decreases uris.len() - i,
    {
        let ghost before = paths.deep_view();
        let ghost next = uris.deep_view().take(i + 1);
        assert(next.drop_last() =~= uris.deep_view().take(i as int));
        assert(next.last() == uris@[i as int]@);
        if let Some(path) = strip_prefix(uris[i].as_str(), FILE_URI_PREFIX) {
            paths.push(path);
            assert(paths.deep_view() =~= before.push(path@));
        }
        i += 1;
    }
    assert(uris.deep_view().take(uris.len() as int) =~= uris.deep_view());
    paths
}

/// Every search path comes from an address of the file scheme.
pub proof fn lemma_root_paths_come_from_file_uris(uris: Seq<Seq<char>>, index: int)
    requires
        0 <= index < root_paths(uris).len(),
    ensures
        exists|j: int|
            0 <= j < uris.len() && without_prefix(#[trigger] uris[j], FILE_URI_PREFIX@) == Some(
                root_paths(uris)[index],
            ),
    decreases uris.len(),
{
    if uris.len() > 0 {
        let head = uris.drop_last();
        let kept = without_prefix(uris.last(), FILE_URI_PREFIX@);
        if kept is Some && index == root_paths(head).len() {
            assert(without_prefix(uris[uris.len() - 1], FILE_URI_PREFIX@) == Some(
                root_paths(uris)[index],
            ));
        } else {
            lemma_root_paths_come_from_file_uris(head, index);
            let j = choose|j: int|
                0 <= j < head.len() && without_prefix(#[trigger] head[j], FILE_URI_PREFIX@)
                    == Some(root_paths(head)[index]);
            assert(uris[j] == head[j]);
        }
    }
}

/// What the client answered when asked for its roots.
#[derive(Debug, PartialEq, Eq)]
pub enum RootsReply {
    /// The addresses of its roots.
    Roots(Vec<String>),
    /// The client does not know the request.
    MethodNotFound,
    /// The request failed for another reason.
    Failed(String),
}

/// The search paths for a reply, or the message of the failure: the paths of
/// the file addresses; for a client without roots the current directory,
/// or `.` where that is not known.
pub open spec fn search_paths(reply: RootsReply, current_dir: Option<Seq<char>>) -> Result<
    Seq<Seq<char>>,
    Seq<char>,
> {
    match reply {
        RootsReply::Roots(uris) => Ok(root_paths(uris.deep_view())),
        RootsReply::MethodNotFound => Ok(
            seq![
                match current_dir {
                    Some(dir) => dir,
                    None => "."@,
                },
            ],
        ),
        RootsReply::Failed(reason) => Err("Failed to list roots: "@ + reason@),
    }
}

/// Settles the search paths for the reply of a client.
pub fn search_paths_for_reply(reply: &RootsReply, current_dir: Option<&str>) -> (r: Result<
    Vec<String>,
    String,
>)
    ensures
        match r {
            Ok(paths) => search_paths(*reply, current_dir.deep_view()) == Ok::<
                Seq<Seq<char>>,
                Seq<char>,
            >(paths.deep_view()),
            Err(message) => search_paths(*reply, current_dir.deep_view()) == Err::<
                Seq<Seq<char>>,
                Seq<char>,
            >(message@),
        },
{
    match reply {
        RootsReply::Roots(uris) => Ok(paths_from_root_uris(uris)),
        RootsReply::MethodNotFound => {
            let fallback = match current_dir {
                Some(dir) => String::from_str(dir),
                None => String::from_str("."),
            };
            let mut paths: Vec<String> = Vec::new();
            paths.push(fallback);
            assert(paths.deep_view() =~= seq![fallback@]);
            Ok(paths)
        },
        RootsReply::Failed(reason) => {
            let mut message = String::from_str("Failed to list roots: ");
            message.append(reason.as_str());
            Err(message)
        },
    }
}

} // verus!

//! Configuration values that are computed from the raw options: the outbound
//! peer list and where the log goes.

use vstd::prelude::*;
use crate::gossip::texts;

verus! {

/// Whether `c` separates two peers in the peer list.
pub open spec fn is_separator(c: char) -> bool {
    c == ',' || c == ';'
}

/// The pieces of `s` between separators, in order; empty pieces are kept
/// and no piece is trimmed.
pub open spec fn split_peers(s: Seq<char>) -> Seq<Seq<char>>
    decreases s.len(),
{
    if s.len() == 0 {
        seq![Seq::<char>::empty()]
    } else {
        let rest = split_peers(s.drop_last());
        if is_separator(s.last()) {
            rest.push(Seq::empty())
        } else {
            rest.update(rest.len() - 1, rest.last().push(s.last()))
        }
    }
}

/// The outbound peers named in a list separated by commas or semicolons.
pub fn parse_peer_list(servers: &str) -> (r: Vec<String>)
    ensures
        texts(r@) == split_peers(servers@),
{
    let n = servers.unicode_len();
    let mut pieces: Vec<String> = Vec::new();
    let mut start: usize = 0;
    let mut i: usize = 0;
    proof {
        assert(texts(pieces@) =~= Seq::<Seq<char>>::empty());
        assert(servers@.subrange(0, 0) =~= Seq::<char>::empty());
        assert(split_peers(Seq::<char>::empty()) == seq![Seq::<char>::empty()]);
        assert(texts(pieces@).push(servers@.subrange(0, 0)) =~= split_peers(servers@.subrange(0, 0)));
    }
    while i < n
        invariant
            n == servers@.len(),
            start <= i <= n,
            texts(pieces@).push(servers@.subrange(start as int, i as int)) == split_peers(servers@.subrange(0, i as int)),
        decreases n - i,
    {
        let c = servers.get_char(i);
        let ghost prev = servers@.subrange(0, i as int);
        let ghost next = servers@.subrange(0, i as int + 1);
        proof {
            assert(next.drop_last() =~= prev);
            assert(next.last() == c);
        }
        if c == ',' || c == ';' {
            let ghost before = texts(pieces@);
            let piece = servers.substring_char(start, i).to_owned();
            let ghost piece_text = piece@;
            pieces.push(piece);
            start = i + 1;
            proof {
                assert(texts(pieces@) =~= before.push(piece_text));
                assert(servers@.subrange(start as int, i as int + 1) =~= Seq::<char>::empty());
                assert(texts(pieces@).push(servers@.subrange(start as int, i as int + 1)) =~= split_peers(next));
            }
        } else {
            proof {
                assert(servers@.subrange(start as int, i as int + 1) =~= servers@.subrange(start as int, i as int).push(c));
                assert(texts(pieces@).push(servers@.subrange(start as int, i as int + 1)) =~= split_peers(next));
            }
        }
        i += 1;
    }
    let ghost before = texts(pieces@);
    let piece = servers.substring_char(start, n).to_owned();
    let ghost piece_text = piece@;
    pieces.push(piece);
    proof {
        assert(texts(pieces@) =~= before.push(piece_text));
        assert(servers@.subrange(0, n as int) =~= servers@);
        assert(texts(pieces@) =~= split_peers(servers@));
    }
    pieces
}

/// The log directory and file prefix for a log path: the parts before and
/// after its last `/`; a path without one goes to `.` and loses its first
/// character.
pub open spec fn log_location(path: Seq<char>) -> (Seq<char>, Seq<char>) {
    if exists|k: int| 0 <= k < path.len() && path[k] == '/' {
        let k = choose|k: int| 0 <= k < path.len() && path[k] == '/' && forall|j: int| k < j < path.len() ==> path[j] != '/';
        (path.subrange(0, k), path.subrange(k + 1, path.len() as int))
    } else if path.len() == 0 {
        ("."@, Seq::empty())
    } else {
        ("."@, path.subrange(1, path.len() as int))
    }
}

/// Splits the log path into the directory and the file prefix of the log.
pub fn split_log_path(path: &str) -> (r: (String, String))
    ensures
        (r.0@, r.1@) == log_location(path@),
{
    let n = path.unicode_len();
    let mut i: usize = n;
    while i > 0
        invariant
            n == path@.len(),
            i <= n,
            forall|j: int| i <= j < n ==> path@[j] != '/',
        decreases i,
    {
        if path.get_char(i - 1) == '/' {
            let k = i - 1;
            proof {
                assert(path@[k as int] == '/' && forall|j: int| k < j < path@.len() ==> path@[j] != '/');
                let c = choose|c: int| 0 <= c < path@.len() && path@[c] == '/' && forall|j: int| c < j < path@.len() ==> path@[j] != '/';
                assert(c == k);
            }
            return (path.substring_char(0, k).to_owned(), path.substring_char(i, n).to_owned());
        }
        i -= 1;
    }
    proof {
        reveal_strlit("");
    }
    if n == 0 {
        (".".to_owned(), "".to_owned())
    } else {
        (".".to_owned(), path.substring_char(1, n).to_owned())
    }
}

} // verus!

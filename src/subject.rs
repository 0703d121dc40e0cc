//! Bus subject names for a lobby and a participant.
use vstd::prelude::*;

verus! {

/// A token with every space replaced by an underscore: subject tokens may
/// not hold whitespace.
pub open spec fn sanitized(s: Seq<char>) -> Seq<char> {
    Seq::new(s.len(), |i: int| if s[i] == ' ' { '_' } else { s[i] })
}

/// The wildcard subject that every participant of a lobby listens on.
pub open spec fn room_subject_of(lobby: Seq<char>) -> Seq<char> {
    "room."@ + sanitized(lobby) + ".*"@
}

/// The subject a participant publishes on, which is also its queue group.
pub open spec fn own_subject_of(lobby: Seq<char>, user: Seq<char>) -> Seq<char> {
    "room."@ + sanitized(lobby) + "."@ + sanitized(user)
}

/// Replaces each space of `s` by an underscore.
pub fn sanitize(s: &str) -> (r: String)
    ensures
        r@ == sanitized(s@),
{
    let n = s.unicode_len();
    let mut out = String::new();
    let mut i: usize = 0;
    while i < n
        invariant
            n == s@.len(),
            i <= n,
            out@ == sanitized(s@.subrange(0, i as int)),
        decreases n - i,
    {
        let c = s.get_char(i);
        if c == ' ' {
            out.append("_");
        } else {
            out.append(s.substring_char(i, i + 1));
        }
        proof {
            reveal_strlit("_");
            assert(sanitized(s@.subrange(0, i + 1)) =~= sanitized(s@.subrange(0, i as int)) + seq![
                if s@[i as int] == ' ' { '_' } else { s@[i as int] },
            ]);
        }
        i = i + 1;
    }
    proof {
        assert(s@.subrange(0, n as int) =~= s@);
    }
    out
}

/// The room-wide wildcard subject `room.<lobby>.*`.
pub fn room_subject(lobby_id: &str) -> (r: String)
    ensures
        r@ == room_subject_of(lobby_id@),
{
    let mut out = String::from_str("room.");
    let lobby = sanitize(lobby_id);
    out.append(lobby.as_str());
    out.append(".*");
    out
}

/// The participant's own subject `room.<lobby>.<username>`.
pub fn own_subject(lobby_id: &str, username: &str) -> (r: String)
    ensures
        r@ == own_subject_of(lobby_id@, username@),
{
    let mut out = String::from_str("room.");
    let lobby = sanitize(lobby_id);
    out.append(lobby.as_str());
    out.append(".");
    let user = sanitize(username);
    out.append(user.as_str());
    out
}

/// `path` is `/<lobby>/<user>`, with a non-empty lobby free of slashes and
/// a non-empty user.
pub open spec fn is_session_path(path: Seq<char>, lobby: Seq<char>, user: Seq<char>) -> bool {
    &&& path == seq!['/'] + lobby + seq!['/'] + user
    &&& lobby.len() > 0
    &&& !lobby.contains('/')
    &&& user.len() > 0
}

/// The lobby and the username named by a session request's path
/// `/<lobby_id>/<username>`, or `None` where the path has not that shape.
pub fn session_names(path: &str) -> (r: Option<(String, String)>)
    ensures
        r matches Some((l, u)) ==> is_session_path(path@, l@, u@),
        r is None ==> forall|l: Seq<char>, u: Seq<char>| !#[trigger] is_session_path(path@, l, u),
{
    let n = path.unicode_len();
    if n == 0 || path.get_char(0) != '/' {
        proof {
            assert forall|l: Seq<char>, u: Seq<char>| !#[trigger] is_session_path(path@, l, u) by {
                if is_session_path(path@, l, u) {
                    assert(path@[0] == '/');
                }
            }
        }
        return None;
    }
    let mut j: usize = 1;
    while j < n && path.get_char(j) != '/'
        invariant
            n == path@.len(),
            1 <= j <= n,
            forall|k: int| 1 <= k < j ==> path@[k] != '/',
        decreases n - j,
    {
        j = j + 1;
    }
    if j == n || j == 1 || j + 1 == n {
        proof {
            assert forall|l: Seq<char>, u: Seq<char>| !#[trigger] is_session_path(path@, l, u) by {
                if is_session_path(path@, l, u) {
                    let m = (l.len() + 1) as int;
                    assert(path@[m] == '/');
                    assert forall|k: int| 1 <= k < m implies path@[k] != '/' by {
                        assert(path@[k] == l[k - 1]);
                    }
                    assert(path@.len() == 2 + l.len() + u.len());
                }
            }
        }
        return None;
    }
    let lobby = String::from_str(path.substring_char(1, j));
    let user = String::from_str(path.substring_char(j + 1, n));
    proof {
        assert(path@ =~= seq!['/'] + lobby@ + seq!['/'] + user@);
        assert forall|k: int| 0 <= k < lobby@.len() implies lobby@[k] != '/' by {
            assert(lobby@[k] == path@[k + 1]);
        }
    }
    Some((lobby, user))
}

/// Sanitizing removes every space.
pub proof fn lemma_sanitized_has_no_space(s: Seq<char>)
    ensures
        !sanitized(s).contains(' '),
{
}

/// Sanitizing twice gives what sanitizing once gives.
pub proof fn lemma_sanitize_idempotent(s: Seq<char>)
    ensures
        sanitized(sanitized(s)) == sanitized(s),
{
    assert(sanitized(sanitized(s)) =~= sanitized(s));
}

/// Neither derived subject holds a space, whatever the lobby and username.
pub proof fn lemma_subjects_have_no_space(lobby: Seq<char>, user: Seq<char>)
    ensures
        !room_subject_of(lobby).contains(' '),
        !own_subject_of(lobby, user).contains(' '),
{
    reveal_strlit("room.");
    reveal_strlit(".*");
    reveal_strlit(".");
    let r = room_subject_of(lobby);
    let o = own_subject_of(lobby, user);
    assert forall|i: int| 0 <= i < r.len() implies r[i] != ' ' by {
        if 5 <= i < 5 + lobby.len() {
            assert(r[i] == sanitized(lobby)[i - 5]);
        }
    }
    assert forall|i: int| 0 <= i < o.len() implies o[i] != ' ' by {
        if 5 <= i < 5 + lobby.len() {
            assert(o[i] == sanitized(lobby)[i - 5]);
        } else if 6 + lobby.len() <= i {
            assert(o[i] == sanitized(user)[i - 6 - lobby.len()]);
        }
    }
}

} // verus!

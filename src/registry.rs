use vstd::prelude::*;
use vstd::string::*;

verus! {

/// A registry entry: the public attributes of a running session.
#[derive(Debug, Clone)]
pub struct Session {
    pub id: String,
    pub pid: u32,
    /// Start time, as an RFC 3339 timestamp.
    pub started: String,
    pub command: Vec<String>,
}

/// `name` inside directory `dir`, with one separator between them.
pub open spec fn join_path_spec(dir: Seq<char>, name: Seq<char>) -> Seq<char> {
    if dir.len() == 0 || dir.last() == '/' {
        dir + name
    } else {
        dir + seq!['/'] + name
    }
}

/// The file name of a session's endpoint.
pub open spec fn endpoint_name(id: Seq<char>) -> Seq<char> {
    id + ".sock"@
}

/// The file name of the registry.
pub open spec fn registry_name() -> Seq<char> {
    "sessions.json"@
}

/// The directory that holds endpoints and the registry, chosen from the
/// user's runtime directory and home directory where they are known.
pub open spec fn socket_dir_spec(runtime: Option<Seq<char>>, home: Option<Seq<char>>) -> Seq<char> {
    match runtime {
        Some(d) => d,
        None => match home {
            Some(h) => join_path_spec(h, ".record"@),
            None => "/tmp/record"@,
        },
    }
}

/// `name` inside directory `dir`, with one separator between them.
pub fn join_path(dir: &str, name: &str) -> (r: String)
    ensures
        r@ == join_path_spec(dir@, name@),
{
    let n = dir.unicode_len();
    let mut r = String::from_str(dir);
    if n > 0 && dir.get_char(n - 1) != '/' {
        r.append("/");
        proof {
            reveal_strlit("/");
        }
    }
    r.append(name);
    r
}

/// Path of the endpoint of session `session_id` in directory `dir`.
pub fn socket_path_in(dir: &str, session_id: &str) -> (r: String)
    ensures
        r@ == join_path_spec(dir@, endpoint_name(session_id@)),
{
    let mut name = String::from_str(session_id);
    name.append(".sock");
    join_path(dir, name.as_str())
}

/// Path of the registry file in directory `dir`.
pub fn registry_path_in(dir: &str) -> (r: String)
    ensures
        r@ == join_path_spec(dir@, registry_name()),
{
    join_path(dir, "sessions.json")
}

/// The directory that holds endpoints and the registry: the runtime
/// directory if known, else `.record` in the home directory, else `/tmp/record`.
pub fn socket_dir_from(runtime: Option<String>, home: Option<String>) -> (r: String)
    ensures
        r@ == socket_dir_spec(
            match runtime {
                Some(d) => Some(d@),
                None => None,
            },
            match home {
                Some(h) => Some(h@),
                None => None,
            },
        ),
{
    match runtime {
        Some(d) => d,
        None => match home {
            Some(h) => join_path(h.as_str(), ".record"),
            None => String::from_str("/tmp/record"),
        },
    }
}

/// Relies on dirs::runtime_dir: `$XDG_RUNTIME_DIR` when it holds an
/// absolute path, so never an empty one.
#[verifier::external_body]
fn runtime_dir() -> (r: Option<String>)
    ensures
        r matches Some(d) ==> d@.len() > 0,
{
    dirs::runtime_dir().map(|p| p.to_string_lossy().into_owned())
}

/// Relies on dirs::home_dir: the user's home directory, if it can be found.
#[verifier::external_body]
fn home_dir() -> (r: Option<String>) {
    dirs::home_dir().map(|p| p.to_string_lossy().into_owned())
}

/// The directory that holds endpoints and the registry for this user.
pub fn get_socket_dir() -> (r: String)
    ensures
        r@.len() > 0,
        exists|runtime: Option<Seq<char>>, home: Option<Seq<char>>|
            (runtime matches Some(d) ==> d.len() > 0) && r@ == socket_dir_spec(runtime, home),
{
    let runtime = runtime_dir();
    let home = home_dir();
    let ghost rt = if runtime is Some {
        Some(runtime->Some_0@)
    } else {
        None
    };
    let ghost hm = if home is Some {
        Some(home->Some_0@)
    } else {
        None
    };
    proof {
        reveal_strlit("/tmp/record");
        reveal_strlit(".record");
    }
    let r = socket_dir_from(runtime, home);
    assert((rt matches Some(d) ==> d.len() > 0) && r@ == socket_dir_spec(rt, hm));
    r
}

/// Path of the endpoint of session `session_id` in this user's directory.
pub fn get_socket_path(session_id: &str) -> (r: String)
    ensures
        exists|dir: Seq<char>| dir.len() > 0 && r@ == join_path_spec(dir, endpoint_name(session_id@)),
{
    let dir = get_socket_dir();
    socket_path_in(dir.as_str(), session_id)
}

/// The entries whose flag is set, in their order.
pub open spec fn live_entries(entries: Seq<Session>, live: Seq<bool>) -> Seq<Session>
    decreases entries.len(),
{
    if entries.len() == 0 || live.len() == 0 {
        Seq::empty()
    } else {
        let rest = live_entries(entries.subrange(1, entries.len() as int), live.subrange(1, live.len() as int));
        if live[0] {
            seq![entries[0]] + rest
        } else {
            rest
        }
    }
}

/// The entries whose id differs from `id`, in their order.
pub open spec fn other_entries(entries: Seq<Session>, id: Seq<char>) -> Seq<Session>
    decreases entries.len(),
{
    if entries.len() == 0 {
        Seq::empty()
    } else {
        let rest = other_entries(entries.subrange(1, entries.len() as int), id);
        if entries[0].id@ != id {
            seq![entries[0]] + rest
        } else {
            rest
        }
    }
}

/// A listing holds only entries whose endpoint exists, and each of them:
/// an entry whose endpoint is absent is left out, whatever the registry
/// file still says.
pub proof fn lemma_listing_excludes_absent(entries: Seq<Session>, live: Seq<bool>)
    requires
        live.len() == entries.len(),
    ensures
        forall|e: Session|
            live_entries(entries, live).contains(e) ==> exists|i: int|
                0 <= i < entries.len() && live[i] && entries[i] == e,
        forall|i: int|
            0 <= i < entries.len() && live[i] ==> live_entries(entries, live).contains(
                #[trigger] entries[i],
            ),
        forall|i: int|
            0 <= i < entries.len() && !live[i] && (forall|j: int|
                0 <= j < entries.len() && entries[j] == entries[i] ==> !live[j])
                ==> !live_entries(entries, live).contains(#[trigger] entries[i]),
    decreases entries.len(),
{
    if entries.len() > 0 {
        let es = entries.subrange(1, entries.len() as int);
        let ls = live.subrange(1, live.len() as int);
        lemma_listing_excludes_absent(es, ls);
        let r = live_entries(entries, live);
        let rest = live_entries(es, ls);
        assert forall|e: Session| r.contains(e) implies exists|i: int|
            0 <= i < entries.len() && live[i] && entries[i] == e by {
            let k = choose|k: int| 0 <= k < r.len() && r[k] == e;
            if live[0] && k == 0 {
                assert(entries[0] == e);
            } else {
                let k2 = if live[0] { k - 1 } else { k };
                assert(rest[k2] == e);
                assert(rest.contains(e));
                let i2 = choose|i2: int| 0 <= i2 < es.len() && ls[i2] && es[i2] == e;
                assert(entries[i2 + 1] == e && live[i2 + 1]);
            }
        }
        assert forall|i: int| 0 <= i < entries.len() && live[i] implies r.contains(
            #[trigger] entries[i],
        ) by {
            if i == 0 {
                assert(r[0] == entries[0]);
            } else {
                assert(es[i - 1] == entries[i] && ls[i - 1]);
                let k = choose|k: int| 0 <= k < rest.len() && rest[k] == es[i - 1];
                if live[0] {
                    assert(r[k + 1] == entries[i]);
                } else {
                    assert(r[k] == entries[i]);
                }
            }
        }
    }
}

/// Keeps the registry entries whose endpoint exists: `endpoint_exists[i]`
/// tells whether the endpoint of `sessions[i]` is present on disk.
pub fn filter_live(sessions: Vec<Session>, endpoint_exists: &Vec<bool>) -> (r: Vec<Session>)
    requires
        endpoint_exists@.len() == sessions@.len(),
    ensures
        r@ == live_entries(sessions@, endpoint_exists@),
{
    let ghost orig = sessions@;
    let n = sessions.len();
    let mut rest = sessions;
    let mut r: Vec<Session> = Vec::new();
    let mut k: usize = n;
    while k > 0
        invariant
            k <= n,
            n == orig.len(),
            endpoint_exists@.len() == n,
            rest@ == orig.subrange(0, k as int),
            r@ == live_entries(orig.subrange(k as int, n as int), endpoint_exists@.subrange(k as int, n as int)),
        decreases k,
    {
        let s = rest.pop().unwrap();
        assert(rest@ =~= orig.subrange(0, k - 1));
        let ghost tail = orig.subrange(k - 1, n as int);
        let ghost flags = endpoint_exists@.subrange(k - 1, n as int);
        assert(tail.subrange(1, tail.len() as int) =~= orig.subrange(k as int, n as int));
        assert(flags.subrange(1, flags.len() as int) =~= endpoint_exists@.subrange(k as int, n as int));
        if endpoint_exists[k - 1] {
            r.insert(0, s);
            assert(r@ =~= seq![tail[0]] + live_entries(orig.subrange(k as int, n as int), endpoint_exists@.subrange(k as int, n as int)));
        }
        k = k - 1;
    }
    assert(orig.subrange(0, n as int) =~= orig);
    assert(endpoint_exists@.subrange(0, n as int) =~= endpoint_exists@);
    r
}

/// The registry without the entries of session `id`.
pub fn without_session(sessions: Vec<Session>, id: &str) -> (r: Vec<Session>)
    ensures
        r@ == other_entries(sessions@, id@),
{
    let ghost orig = sessions@;
    let n = sessions.len();
    let mut rest = sessions;
    let mut r: Vec<Session> = Vec::new();
    let target = String::from_str(id);
    let mut k: usize = n;
    while k > 0
        invariant
            k <= n,
            n == orig.len(),
            target@ == id@,
            rest@ == orig.subrange(0, k as int),
            r@ == other_entries(orig.subrange(k as int, n as int), id@),
        decreases k,
    {
        let s = rest.pop().unwrap();
        assert(rest@ =~= orig.subrange(0, k - 1));
        let ghost tail = orig.subrange(k - 1, n as int);
        assert(tail.subrange(1, tail.len() as int) =~= orig.subrange(k as int, n as int));
        let same = s.id == target;
        if !same {
            r.insert(0, s);
            assert(r@ =~= seq![tail[0]] + other_entries(orig.subrange(k as int, n as int), id@));
        }
        k = k - 1;
    }
    assert(orig.subrange(0, n as int) =~= orig);
    r
}

/// Relies on uuid::Uuid::new_v4 and its `Display`: a random identifier in
/// hyphenated form, 36 characters.
#[verifier::external_body]
fn new_session_id() -> (r: String)
    ensures
        r@.len() == 36,
{
    uuid::Uuid::new_v4().to_string()
}

/// Relies on chrono::Utc::now and DateTime::to_rfc3339: the current time as
/// an RFC 3339 timestamp.
#[verifier::external_body]
fn now_rfc3339() -> (r: String) {
    chrono::Utc::now().to_rfc3339()
}

/// A registry entry for a session started now by process `pid`, running
/// `command`, under a freshly generated id.
pub fn new_session(pid: u32, command: Vec<String>) -> (r: Session)
    ensures
        r.pid == pid,
        r.command@ == command@,
        r.id@.len() == 36,
{
    let id = new_session_id();
    let started = now_rfc3339();
    Session { id, pid, started, command }
}

} // verus!

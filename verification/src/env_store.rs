use vstd::prelude::*;
use vstd::slice::slice_index_get;
use vstd::slice::slice_subrange;
use vstd::string::StringExecFns;

verus! {

/// What went wrong while reading a `.env` file.
///
/// `BadLine` carries the offending line and the byte position at which
/// parsing stopped.  `ReadFailed` stands for a failure of the underlying
/// reader, `MissingVariable` for a malformed variable reference.
#[derive(Debug)]
pub enum EnvFileError {
    BadLine { line: String, position: usize },
    ReadFailed,
    MissingVariable,
}

/// The value bound to `key` by `entries`, where the first entry with a
/// matching key wins and later duplicates are ignored.
spec fn lookup(entries: Seq<(String, String)>, key: Seq<char>) -> Option<Seq<char>>
    decreases entries.len(),
{
    if entries.len() == 0 {
        None
    } else if entries[0].0@ == key {
        Some(entries[0].1@)
    } else {
        lookup(entries.drop_first(), key)
    }
}

/// One `.env` entry applied to an environment: a key that is already
/// bound keeps its value, an unbound key is added.
pub open spec fn apply_entry(m: Map<Seq<char>, Seq<char>>, e: (String, String)) -> Map<
    Seq<char>,
    Seq<char>,
> {
    if m.dom().contains(e.0@) {
        m
    } else {
        m.insert(e.0@, e.1@)
    }
}

/// The environment after the entries of a `.env` file are applied in
/// order, each one only where its key is not yet bound.
pub open spec fn env_after_load(
    m: Map<Seq<char>, Seq<char>>,
    entries: Seq<(String, String)>,
) -> Map<Seq<char>, Seq<char>>
    decreases entries.len(),
{
    if entries.len() == 0 {
        m
    } else {
        env_after_load(apply_entry(m, entries[0]), entries.drop_first())
    }
}

/// A snapshot of environment bindings: a mapping from variable names to
/// values, built up explicitly instead of being re-read from ambient
/// process state.
pub struct EnvStore {
    entries: Vec<(String, String)>,
}

impl View for EnvStore {
    type V = Map<Seq<char>, Seq<char>>;

    closed spec fn view(&self) -> Map<Seq<char>, Seq<char>> {
        Map::new(
            |k: Seq<char>| lookup(self.entries@, k) is Some,
            |k: Seq<char>| lookup(self.entries@, k)->Some_0,
        )
    }
}

proof fn lemma_lookup_first_match(entries: Seq<(String, String)>, key: Seq<char>, i: int)
    requires
        0 <= i < entries.len(),
        forall|j: int| 0 <= j < i ==> entries[j].0@ != key,
        entries[i].0@ == key,
    ensures
        lookup(entries, key) == Some(entries[i].1@),
    decreases i,
{
    if i > 0 {
        lemma_lookup_first_match(entries.drop_first(), key, i - 1);
    }
}

proof fn lemma_lookup_no_match(entries: Seq<(String, String)>, key: Seq<char>)
    requires
        forall|j: int| 0 <= j < entries.len() ==> entries[j].0@ != key,
    ensures
        lookup(entries, key) is None,
    decreases entries.len(),
{
    if entries.len() > 0 {
        lemma_lookup_no_match(entries.drop_first(), key);
    }
}

proof fn lemma_lookup_push(entries: Seq<(String, String)>, e: (String, String), k: Seq<char>)
    ensures
        lookup(entries.push(e), k) == (if lookup(entries, k) is Some {
            lookup(entries, k)
        } else if e.0@ == k {
            Some(e.1@)
        } else {
            None
        }),
    decreases entries.len(),
{
    if entries.len() == 0 {
        assert(entries.push(e).drop_first() =~= entries);
    } else {
        assert(entries.push(e).drop_first() =~= entries.drop_first().push(e));
        lemma_lookup_push(entries.drop_first(), e, k);
    }
}

impl EnvStore {
    /// An environment with no bindings.
    pub fn new() -> (s: EnvStore)
        ensures
            s@ == Map::<Seq<char>, Seq<char>>::empty(),
    {
        let s = EnvStore { entries: Vec::new() };
        proof {
            assert(s@ =~= Map::<Seq<char>, Seq<char>>::empty());
        }
        s
    }

    /// The value bound to `key`, if any.
    pub fn get<'a>(&'a self, key: &String) -> (r: Option<&'a String>)
        ensures
            match r {
                Some(v) => self@.dom().contains(key@) && v@ == self@[key@],
                None => !self@.dom().contains(key@),
            },
    {
        let n = self.entries.len();
        let mut i: usize = 0;
        while i < n
            invariant
                n == self.entries@.len(),
                0 <= i <= n,
                forall|j: int| 0 <= j < i ==> self.entries@[j].0@ != key@,
            decreases n - i,
        {
            if self.entries[i].0 == *key {
                proof {
                    lemma_lookup_first_match(self.entries@, key@, i as int);
                }
                return Some(&self.entries[i].1);
            }
            i += 1;
        }
        proof {
            lemma_lookup_no_match(self.entries@, key@);
        }
        None
    }

    /// Binds `key` to `value` unless `key` is already bound, in which
    /// case the store is left as it was.
    pub fn set_if_absent(&mut self, key: String, value: String)
        ensures
            final(self)@ == apply_entry(old(self)@, (key, value)),
            old(self)@.dom().contains(key@) ==> final(self)@ == old(self)@,
            !old(self)@.dom().contains(key@) ==> final(self)@ == old(self)@.insert(key@, value@),
    {
        let present = self.get(&key).is_some();
        if !present {
            let ghost entries0 = self.entries@;
            let ghost e = (key, value);
            self.entries.push((key, value));
            proof {
                assert forall|k: Seq<char>|
                    lookup(entries0.push(e), k) == (if lookup(entries0, k) is Some {
                        lookup(entries0, k)
                    } else if e.0@ == k {
                        Some(e.1@)
                    } else {
                        None
                    }) by {
                    lemma_lookup_push(entries0, e, k);
                }
                assert(self@ =~= old(self)@.insert(e.0@, e.1@));
            }
        }
    }

    /// Applies every entry in order, each one only where its key is not
    /// yet bound: existing bindings always win, and of two entries with
    /// the same key the first wins.
    pub fn load_entries(&mut self, entries: &Vec<(String, String)>)
        ensures
            final(self)@ == env_after_load(old(self)@, entries@),
            forall|k: Seq<char>|
                #[trigger] old(self)@.dom().contains(k) ==> final(self)@.dom().contains(k)
                    && final(self)@[k] == old(self)@[k],
    {
        let n = entries.len();
        let mut i: usize = 0;
        proof {
            assert(entries@.skip(0) =~= entries@);
        }
        while i < n
            invariant
                n == entries@.len(),
                0 <= i <= n,
                env_after_load(old(self)@, entries@) == env_after_load(
                    self@,
                    entries@.skip(i as int),
                ),
            decreases n - i,
        {
            let ghost pre = self@;
            let key = entries[i].0.clone();
            let value = entries[i].1.clone();
            self.set_if_absent(key, value);
            proof {
                let rest = entries@.skip(i as int);
                assert(rest[0] == entries@[i as int]);
                assert(rest.drop_first() =~= entries@.skip(i as int + 1));
                assert(apply_entry(pre, rest[0]) == self@);
            }
            i += 1;
        }
        proof {
            assert(entries@.skip(n as int) =~= Seq::<(String, String)>::empty());
            lemma_load_preserves_existing_all(old(self)@, entries@);
        }
    }
}

/// How one probed `.env` file fared during startup loading.
#[derive(Debug)]
pub enum LoadOutcome {
    /// The file was not there to load.
    Skipped,
    /// The file was read and applied without error.
    Loaded,
    /// Parsing stopped on an error; entries before it were applied.
    Failed(EnvFileError),
}

/// Relies on dotenvy's reader iterator for the `.env` line grammar: each
/// item is one parsed `KEY=value` pair, in file order, or the error that
/// stopped parsing.  Values may draw on `$VAR` substitution, which reads
/// the ambient process environment, so nothing is claimed of the entries
/// themselves; an empty input yields no entries and no error.
#[verifier::external_body]
fn parse_env_entries(bytes: &[u8]) -> (r: (Vec<(String, String)>, Option<EnvFileError>))
    ensures
        bytes@.len() == 0 ==> r.0@.len() == 0 && r.1 is None,
{
    let mut out = Vec::new();
    for item in dotenvy::from_read_iter(bytes) {
        match item {
            Ok(kv) => out.push(kv),
            Err(dotenvy::Error::LineParse(line, position)) => {
                return (out, Some(EnvFileError::BadLine { line, position }));
            },
            Err(dotenvy::Error::Io(_)) => return (out, Some(EnvFileError::ReadFailed)),
            Err(dotenvy::Error::EnvVar(_)) => return (out, Some(EnvFileError::MissingVariable)),
            Err(_) => return (out, Some(EnvFileError::ReadFailed)),
        }
    }
    (out, None)
}

/// A file's contents with a leading UTF-8 byte-order mark removed, left
/// as they are where none is present.
pub open spec fn strip_bom_spec(data: Seq<u8>) -> Seq<u8> {
    if data.len() >= 3 && data[0] == 0xefu8 && data[1] == 0xbbu8 && data[2] == 0xbfu8 {
        data.subrange(3, data.len() as int)
    } else {
        data
    }
}

fn strip_bom(data: &[u8]) -> (r: &[u8])
    ensures
        r@ == strip_bom_spec(data@),
{
    if data.len() >= 3 && *slice_index_get(data, 0) == 0xefu8 && *slice_index_get(data, 1)
        == 0xbbu8 && *slice_index_get(data, 2) == 0xbfu8 {
        slice_subrange(data, 3, data.len())
    } else {
        data
    }
}

impl EnvStore {
    /// Applies the contents of one `.env` file, given as raw bytes, to
    /// this environment.  A leading byte-order mark is ignored.  Every
    /// entry parsed before the first error (if any) is applied, each one
    /// only where its key is not yet bound; existing bindings are never
    /// overridden, whatever the file holds.
    pub fn load_env_bytes(&mut self, bytes: &Vec<u8>) -> (r: Option<EnvFileError>)
        ensures
            forall|k: Seq<char>|
                #[trigger] old(self)@.dom().contains(k) ==> final(self)@.dom().contains(k)
                    && final(self)@[k] == old(self)@[k],
            strip_bom_spec(bytes@).len() == 0 ==> final(self)@ == old(self)@ && r is None,
    {
        let data: &[u8] = strip_bom(bytes.as_slice());
        let (entries, err) = parse_env_entries(data);
        self.load_entries(&entries);
        err
    }

    /// One startup probe for a configuration file, handed the file's
    /// bytes or `None` where the file was not found.  An absent file is
    /// only reported and contributes nothing: the environment is left
    /// exactly as it was.  A present file is applied as `load_env_bytes`
    /// does, so bindings present before the call are never overridden.
    pub fn load_env_probe(&mut self, bytes: &Option<Vec<u8>>) -> (r: LoadOutcome)
        ensures
            forall|k: Seq<char>|
                #[trigger] old(self)@.dom().contains(k) ==> final(self)@.dom().contains(k)
                    && final(self)@[k] == old(self)@[k],
            bytes is None ==> final(self)@ == old(self)@,
            r is Skipped <==> bytes is None,
            bytes matches Some(b) && strip_bom_spec(b@).len() == 0 ==> final(self)@ == old(self)@
                && r is Loaded,
    {
        match bytes {
            Some(b) => match self.load_env_bytes(b) {
                Some(e) => LoadOutcome::Failed(e),
                None => LoadOutcome::Loaded,
            },
            None => LoadOutcome::Skipped,
        }
    }
}

/// The name of the environment variable that holds the home directory,
/// by platform family.
pub open spec fn home_var_name_spec(windows: bool) -> Seq<char> {
    if windows {
        "USERPROFILE"@
    } else {
        "HOME"@
    }
}

/// The environment variable probed for the home directory: `USERPROFILE`
/// on Windows, `HOME` elsewhere.
pub fn home_var_name(windows: bool) -> (s: String)
    ensures
        s@ == home_var_name_spec(windows),
{
    if windows {
        String::from_str("USERPROFILE")
    } else {
        String::from_str("HOME")
    }
}

/// Law: a key that is bound before a `.env` file is applied keeps its
/// value; applying a file never overrides an existing binding.
pub proof fn lemma_load_preserves_existing(
    m: Map<Seq<char>, Seq<char>>,
    entries: Seq<(String, String)>,
    k: Seq<char>,
)
    requires
        m.dom().contains(k),
    ensures
        env_after_load(m, entries).dom().contains(k),
        env_after_load(m, entries)[k] == m[k],
    decreases entries.len(),
{
    if entries.len() > 0 {
        lemma_load_preserves_existing(apply_entry(m, entries[0]), entries.drop_first(), k);
    }
}

proof fn lemma_load_preserves_existing_all(
    m: Map<Seq<char>, Seq<char>>,
    entries: Seq<(String, String)>,
)
    ensures
        forall|k: Seq<char>|
            #[trigger] m.dom().contains(k) ==> env_after_load(m, entries).dom().contains(k)
                && env_after_load(m, entries)[k] == m[k],
{
    assert forall|k: Seq<char>| #[trigger] m.dom().contains(k) implies env_after_load(
        m,
        entries,
    ).dom().contains(k) && env_after_load(m, entries)[k] == m[k] by {
        lemma_load_preserves_existing(m, entries, k);
    }
}

/// Law: when both the working-directory file and the home-directory file
/// define a key, the value taken from the working-directory file (loaded
/// first) is not overridden by the home-directory file (loaded second).
pub proof fn lemma_home_file_does_not_override(
    env0: Map<Seq<char>, Seq<char>>,
    cwd_entries: Seq<(String, String)>,
    home_entries: Seq<(String, String)>,
    k: Seq<char>,
)
    requires
        env_after_load(env0, cwd_entries).dom().contains(k),
    ensures
        env_after_load(env_after_load(env0, cwd_entries), home_entries).dom().contains(k),
        env_after_load(env_after_load(env0, cwd_entries), home_entries)[k] == env_after_load(
            env0,
            cwd_entries,
        )[k],
{
    lemma_load_preserves_existing(env_after_load(env0, cwd_entries), home_entries, k);
}

} // verus!

//! The key store that pairs peers: a table from names (pins) to values
//! (peer keys) that clients read, write and delete by name. Values are
//! stored with leading and trailing white space removed.

use vstd::prelude::*;

verus! {

/// The answer of the store to a request, as an HTTP status.
#[derive(Debug, Copy, Clone, PartialEq, Eq, Structural)]
pub enum KeyStatus {
    /// The request was carried out; there is nothing to send back.
    NoContent,
    /// No value is stored under the name.
    NotFound,
}

impl KeyStatus {
    /// The HTTP status code of the answer.
    pub fn code(&self) -> (r: u16)
        ensures
            *self == KeyStatus::NoContent ==> r == 204,
            *self == KeyStatus::NotFound ==> r == 404,
    {
        match self {
            KeyStatus::NoContent => 204,
            KeyStatus::NotFound => 404,
        }
    }
}

/// Whether `c` has the Unicode `White_Space` property.
pub open spec fn is_white_space(c: char) -> bool {
    let v = c as u32;
    ||| 0x09 <= v <= 0x0d
    ||| v == 0x20
    ||| v == 0x85
    ||| v == 0xa0
    ||| v == 0x1680
    ||| 0x2000 <= v <= 0x200a
    ||| v == 0x2028
    ||| v == 0x2029
    ||| v == 0x202f
    ||| v == 0x205f
    ||| v == 0x3000
}

/// `s` without its leading white space.
pub open spec fn trim_start_spec(s: Seq<char>) -> Seq<char>
    decreases s.len(),
{
    if s.len() > 0 && is_white_space(s[0]) {
        trim_start_spec(s.drop_first())
    } else {
        s
    }
}

/// `s` without its trailing white space.
pub open spec fn trim_end_spec(s: Seq<char>) -> Seq<char>
    decreases s.len(),
{
    if s.len() > 0 && is_white_space(s.last()) {
        trim_end_spec(s.drop_last())
    } else {
        s
    }
}

/// `s` without its leading and trailing white space.
pub open spec fn trim_spec(s: Seq<char>) -> Seq<char> {
    trim_end_spec(trim_start_spec(s))
}

/// Calls `str::trim`, which returns the slice of `s` left when leading and
/// trailing characters with the Unicode `White_Space` property are removed.
#[verifier::external_body]
fn trim(s: &str) -> (r: &str)
    ensures
        r@ == trim_spec(s@),
{
    s.trim()
}

/// What a read of `name` answers: the stored value, or `NotFound`.
pub open spec fn get_spec(m: Map<Seq<char>, Seq<char>>, name: Seq<char>) -> Result<
    Seq<char>,
    KeyStatus,
> {
    if m.contains_key(name) {
        Ok(m[name])
    } else {
        Err(KeyStatus::NotFound)
    }
}

/// The table after a write of `body` under `name`.
pub open spec fn set_spec(m: Map<Seq<char>, Seq<char>>, name: Seq<char>, body: Seq<char>) -> Map<
    Seq<char>,
    Seq<char>,
> {
    m.insert(name, trim_spec(body))
}

/// What a deletion of `name` answers.
pub open spec fn delete_status_spec(m: Map<Seq<char>, Seq<char>>, name: Seq<char>) -> KeyStatus {
    if m.contains_key(name) {
        KeyStatus::NoContent
    } else {
        KeyStatus::NotFound
    }
}

/// The table of names to values, each name at most once.
pub struct KeyStore {
    entries: Vec<(String, String)>,
}

/// Whether no name occurs twice in `e`.
spec fn distinct_names(e: Seq<(String, String)>) -> bool {
    forall|i: int, j: int|
        0 <= i < e.len() && 0 <= j < e.len() && i != j ==> #[trigger] e[i].0@ != #[trigger] e[j].0@
}

/// Whether `name` occurs in `e`.
spec fn has_name(e: Seq<(String, String)>, name: Seq<char>) -> bool {
    exists|i: int| 0 <= i < e.len() && #[trigger] e[i].0@ == name
}

/// The table that the entries `e` stand for.
spec fn entries_map(e: Seq<(String, String)>) -> Map<Seq<char>, Seq<char>> {
    Map::new(
        |k: Seq<char>| has_name(e, k),
        |k: Seq<char>| e[choose|i: int| 0 <= i < e.len() && #[trigger] e[i].0@ == k].1@,
    )
}

/// With distinct names, the table maps the name of each entry to its value.
proof fn lemma_entries_map_at(e: Seq<(String, String)>, i: int)
    requires
        distinct_names(e),
        0 <= i < e.len(),
    ensures
        entries_map(e).contains_key(e[i].0@),
        entries_map(e)[e[i].0@] == e[i].1@,
{
    let k = e[i].0@;
    assert(has_name(e, k));
    let j = choose|j: int| 0 <= j < e.len() && #[trigger] e[j].0@ == k;
    assert(j == i);
}

impl KeyStore {
    #[verifier::type_invariant]
    spec fn inv(self) -> bool {
        distinct_names(self.entries@)
    }
}

impl View for KeyStore {
    type V = Map<Seq<char>, Seq<char>>;

    closed spec fn view(&self) -> Map<Seq<char>, Seq<char>> {
        entries_map(self.entries@)
    }
}

impl KeyStore {
    /// An empty store.
    pub fn new() -> (r: Self)
        ensures
            r@ == Map::<Seq<char>, Seq<char>>::empty(),
    {
        let r = KeyStore { entries: Vec::new() };
        assert(r@ =~= Map::<Seq<char>, Seq<char>>::empty());
        r
    }

    /// The place of `name` among the entries, if it is there.
    fn find(&self, name: &String) -> (r: Option<usize>)
        ensures
            r matches Some(i) ==> i < self.entries@.len() && self.entries@[i as int].0@ == name@,
            r is None ==> !has_name(self.entries@, name@),
    {
        let mut i: usize = 0;
        while i < self.entries.len()
            invariant
                i <= self.entries@.len(),
                forall|j: int| 0 <= j < i ==> #[trigger] self.entries@[j].0@ != name@,
            decreases self.entries@.len() - i,
        {
            if self.entries[i].0 == *name {
                return Some(i);
            }
            i = i + 1;
        }
        None
    }

    /// Reads the value stored under `name`.
    pub fn get_key(&self, name: &String) -> (r: Result<String, KeyStatus>)
        ensures
            get_spec(self@, name@) matches Ok(v) ==> r matches Ok(s) && s@ == v,
            get_spec(self@, name@) matches Err(st) ==> r == Err::<String, KeyStatus>(st),
    {
        proof {
            use_type_invariant(self);
        }
        match self.find(name) {
            Some(i) => {
                proof {
                    lemma_entries_map_at(self.entries@, i as int);
                }
                Ok(self.entries[i].1.clone())
            },
            None => Err(KeyStatus::NotFound),
        }
    }

    /// Stores `body`, trimmed of leading and trailing white space, under
    /// `name`, in place of any value stored there before.
    pub fn set_key(&mut self, name: String, body: String) -> (r: KeyStatus)
        ensures
            final(self)@ == set_spec(old(self)@, name@, body@),
            r == KeyStatus::NoContent,
    {
        proof {
            use_type_invariant(&*self);
        }
        let value = trim(body.as_str()).to_owned();
        let ghost old_e = self.entries@;
        let ghost k = name@;
        match self.find(&name) {
            Some(i) => {
                let mut entries: Vec<(String, String)> = Vec::new();
                std::mem::swap(&mut entries, &mut self.entries);
                entries[i] = (name, value);
                let ghost new_e = entries@;
                proof {
                    assert(new_e == old_e.update(i as int, new_e[i as int]));
                    assert(distinct_names(new_e)) by {
                        assert forall|a: int, b: int|
                            0 <= a < new_e.len() && 0 <= b < new_e.len() && a != b implies #[trigger] new_e[a].0@
                            != #[trigger] new_e[b].0@ by {
                            assert(old_e[a].0@ != old_e[b].0@);
                        }
                    }
                    lemma_entries_map_at(new_e, i as int);
                    assert(entries_map(new_e) =~= entries_map(old_e).insert(k, trim_spec(body@)))
                        by {
                        assert forall|key: Seq<char>|
                            #[trigger] entries_map(new_e).contains_key(key) == entries_map(
                                old_e,
                            ).insert(k, trim_spec(body@)).contains_key(key) by {
                            if has_name(new_e, key) {
                                let j = choose|j: int| 0 <= j < new_e.len() && #[trigger] new_e[j].0@ == key;
                                assert(old_e[j].0@ == key);
                            }
                            if has_name(old_e, key) {
                                let j = choose|j: int| 0 <= j < old_e.len() && #[trigger] old_e[j].0@ == key;
                                assert(new_e[j].0@ == key);
                            }
                        }
                        assert forall|key: Seq<char>| #[trigger]
                            entries_map(new_e).contains_key(key) && key != k implies entries_map(
                                new_e,
                            )[key] == entries_map(old_e)[key] by {
                            let j = choose|j: int| 0 <= j < new_e.len() && #[trigger] new_e[j].0@ == key;
                            lemma_entries_map_at(new_e, j);
                            lemma_entries_map_at(old_e, j);
                        }
                    }
                }
                self.entries = entries;
            },
            None => {
                let mut entries: Vec<(String, String)> = Vec::new();
                std::mem::swap(&mut entries, &mut self.entries);
                entries.push((name, value));
                let ghost new_e = entries@;
                proof {
                    let n = old_e.len() as int;
                    assert(new_e[n].0@ == k);
                    assert(distinct_names(new_e)) by {
                        assert forall|a: int, b: int|
                            0 <= a < new_e.len() && 0 <= b < new_e.len() && a != b implies #[trigger] new_e[a].0@
                            != #[trigger] new_e[b].0@ by {
                            if a < n && b < n {
                                assert(old_e[a].0@ != old_e[b].0@);
                            } else if a < n {
                                assert(old_e[a].0@ == new_e[a].0@);
                            } else if b < n {
                                assert(old_e[b].0@ == new_e[b].0@);
                            }
                        }
                    }
                    lemma_entries_map_at(new_e, n);
                    assert(entries_map(new_e) =~= entries_map(old_e).insert(k, trim_spec(body@)))
                        by {
                        assert forall|key: Seq<char>|
                            #[trigger] entries_map(new_e).contains_key(key) == entries_map(
                                old_e,
                            ).insert(k, trim_spec(body@)).contains_key(key) by {
                            if has_name(new_e, key) && key != k {
                                let j = choose|j: int| 0 <= j < new_e.len() && #[trigger] new_e[j].0@ == key;
                                assert(old_e[j].0@ == key);
                            }
                            if has_name(old_e, key) {
                                let j = choose|j: int| 0 <= j < old_e.len() && #[trigger] old_e[j].0@ == key;
                                assert(new_e[j].0@ == key);
                            }
                        }
                        assert forall|key: Seq<char>| #[trigger]
                            entries_map(new_e).contains_key(key) && key != k implies entries_map(
                                new_e,
                            )[key] == entries_map(old_e)[key] by {
                            let j = choose|j: int| 0 <= j < new_e.len() && #[trigger] new_e[j].0@ == key;
                            assert(j < n);
                            lemma_entries_map_at(new_e, j);
                            lemma_entries_map_at(old_e, j);
                        }
                    }
                }
                self.entries = entries;
            },
        }
        KeyStatus::NoContent
    }

    /// Removes the value stored under `name`; answers `NotFound` when there
    /// was none.
    pub fn delete_key(&mut self, name: &String) -> (r: KeyStatus)
        ensures
            final(self)@ == old(self)@.remove(name@),
            r == delete_status_spec(old(self)@, name@),
    {
        proof {
            use_type_invariant(&*self);
        }
        let ghost old_e = self.entries@;
        let ghost k = name@;
        match self.find(name) {
            Some(i) => {
                let mut entries: Vec<(String, String)> = Vec::new();
                std::mem::swap(&mut entries, &mut self.entries);
                entries.remove(i);
                let ghost new_e = entries@;
                proof {
                    let ii = i as int;
                    assert(has_name(old_e, k));
                    assert(distinct_names(new_e)) by {
                        assert forall|a: int, b: int|
                            0 <= a < new_e.len() && 0 <= b < new_e.len() && a != b implies #[trigger] new_e[a].0@
                            != #[trigger] new_e[b].0@ by {
                            let oa = if a < ii { a } else { a + 1 };
                            let ob = if b < ii { b } else { b + 1 };
                            assert(old_e[oa].0@ != old_e[ob].0@);
                        }
                    }
                    assert(entries_map(new_e) =~= entries_map(old_e).remove(k)) by {
                        assert forall|key: Seq<char>|
                            #[trigger] entries_map(new_e).contains_key(key) == entries_map(
                                old_e,
                            ).remove(k).contains_key(key) by {
                            if has_name(new_e, key) {
                                let j = choose|j: int| 0 <= j < new_e.len() && #[trigger] new_e[j].0@ == key;
                                let oj = if j < ii { j } else { j + 1 };
                                assert(old_e[oj].0@ == key);
                                assert(oj != ii);
                            }
                            if has_name(old_e, key) && key != k {
                                let j = choose|j: int| 0 <= j < old_e.len() && #[trigger] old_e[j].0@ == key;
                                assert(j != ii);
                                let nj = if j < ii { j } else { j - 1 };
                                assert(new_e[nj].0@ == key);
                            }
                        }
                        assert forall|key: Seq<char>| #[trigger]
                            entries_map(new_e).contains_key(key) implies entries_map(new_e)[key]
                            == entries_map(old_e)[key] by {
                            let j = choose|j: int| 0 <= j < new_e.len() && #[trigger] new_e[j].0@ == key;
                            let oj = if j < ii { j } else { j + 1 };
                            lemma_entries_map_at(new_e, j);
                            lemma_entries_map_at(old_e, oj);
                        }
                    }
                }
                self.entries = entries;
                KeyStatus::NoContent
            },
            None => {
                assert(entries_map(old_e).remove(k) =~= entries_map(old_e));
                KeyStatus::NotFound
            },
        }
    }
}

/// A read after a write under `name` gives back the written body trimmed
/// of white space, and the write leaves what every other name reads as it
/// was.
pub proof fn lemma_get_after_set(
    m: Map<Seq<char>, Seq<char>>,
    name: Seq<char>,
    body: Seq<char>,
    other: Seq<char>,
)
    ensures
        get_spec(set_spec(m, name, body), name) == Ok::<Seq<char>, KeyStatus>(trim_spec(body)),
        other != name ==> get_spec(set_spec(m, name, body), other) == get_spec(m, other),
{
}

/// A deletion answers `NoContent` exactly when a read of the name would
/// have found a value; after it, a read of the name is answered `NotFound`,
/// and so is a second deletion. Other names read as before.
pub proof fn lemma_get_after_delete(
    m: Map<Seq<char>, Seq<char>>,
    name: Seq<char>,
    other: Seq<char>,
)
    ensures
        (delete_status_spec(m, name) == KeyStatus::NoContent) <==> get_spec(m, name) is Ok,
        get_spec(m.remove(name), name) == Err::<Seq<char>, KeyStatus>(KeyStatus::NotFound),
        delete_status_spec(m.remove(name), name) == KeyStatus::NotFound,
        m.remove(name).remove(name) == m.remove(name),
        other != name ==> get_spec(m.remove(name), other) == get_spec(m, other),
{
    assert(m.remove(name).remove(name) =~= m.remove(name));
}

/// A deletion right after a write under the same name succeeds and leaves
/// the table as a deletion without the write would.
pub proof fn lemma_delete_after_set(m: Map<Seq<char>, Seq<char>>, name: Seq<char>, body: Seq<char>)
    ensures
        delete_status_spec(set_spec(m, name, body), name) == KeyStatus::NoContent,
        set_spec(m, name, body).remove(name) == m.remove(name),
{
    assert(set_spec(m, name, body).remove(name) =~= m.remove(name));
}

/// The table starts empty: every read of a new store is answered `NotFound`.
pub proof fn lemma_new_store_reads_nothing(name: Seq<char>)
    ensures
        get_spec(Map::empty(), name) == Err::<Seq<char>, KeyStatus>(KeyStatus::NotFound),
        delete_status_spec(Map::empty(), name) == KeyStatus::NotFound,
{
}

/// Trimming leaves no white space at either end.
proof fn lemma_trim_start_ends(s: Seq<char>)
    ensures
        trim_start_spec(s).len() > 0 ==> !is_white_space(trim_start_spec(s)[0]),
        trim_start_spec(trim_start_spec(s)) == trim_start_spec(s),
    decreases s.len(),
{
    if s.len() > 0 && is_white_space(s[0]) {
        lemma_trim_start_ends(s.drop_first());
    }
}

/// Trimming the end of a string that does not start with white space keeps
/// that first character.
proof fn lemma_trim_end_keeps_start(s: Seq<char>)
    requires
        s.len() > 0 ==> !is_white_space(s[0]),
    ensures
        trim_start_spec(trim_end_spec(s)) == trim_end_spec(s),
        trim_end_spec(trim_end_spec(s)) == trim_end_spec(s),
    decreases s.len(),
{
    if s.len() > 0 && is_white_space(s.last()) {
        let t = s.drop_last();
        if t.len() > 0 {
            assert(t[0] == s[0]);
        }
        lemma_trim_end_keeps_start(t);
    }
}

/// Trimming a value that was stored (hence trimmed) changes nothing, so a
/// value read back and written again is stored unchanged.
pub proof fn lemma_trim_idempotent(s: Seq<char>)
    ensures
        trim_spec(trim_spec(s)) == trim_spec(s),
{
    lemma_trim_start_ends(s);
    lemma_trim_end_keeps_start(trim_start_spec(s));
}

} // verus!

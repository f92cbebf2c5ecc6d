//! Statement building: text, kind, language, and named parameters, bound to
//! an executable context, prior to dispatch.

use vstd::prelude::*;

verus! {

/// A JSON-representable parameter value. The library carries such values
/// through to the request payload without looking inside them.
#[verifier::external_type_specification]
#[verifier::external_body]
pub struct ExValue(serde_json::Value);

/// Query language a statement's text is expressed in.
#[derive(Debug, Clone, Copy, PartialEq, Eq, Structural)]
pub enum Language {
    SQL,
    Cypher,
}

impl Language {
    /// The name of this language as it travels in a statement payload.
    pub open spec fn wire_name_spec(self) -> Seq<char> {
        match self {
            Language::SQL => "sQL"@,
            Language::Cypher => "cypher"@,
        }
    }

    /// The name of this language as it travels in a statement payload.
    pub fn wire_name(&self) -> (r: &'static str)
        ensures
            r@ == self.wire_name_spec(),
    {
        match self {
            Language::SQL => "sQL",
            Language::Cypher => "cypher",
        }
    }
}

/// Whether a statement is read-oriented (assumed idempotent) or mutating.
/// The kind selects the server sub-path; the server itself enforces the
/// idempotency policy.
#[derive(Debug, Clone, Copy, PartialEq, Eq, Structural)]
pub enum StatementKind {
    Query,
    Command,
}

/// Whether no two entries of a parameter list share a name.
pub open spec fn unique_keys(s: Seq<(String, serde_json::Value)>) -> bool {
    forall|i: int, j: int| 0 <= i < j < s.len() ==> s[i].0@ != s[j].0@
}

/// The mapping a parameter list denotes: later entries win.
pub open spec fn params_map_of(s: Seq<(String, serde_json::Value)>) -> Map<
    Seq<char>,
    serde_json::Value,
>
    decreases s.len(),
{
    if s.len() == 0 {
        Map::empty()
    } else {
        params_map_of(s.drop_last()).insert(s.last().0@, s.last().1)
    }
}

/// A name is in the denoted mapping exactly when some entry carries it.
proof fn lemma_params_map_domain(s: Seq<(String, serde_json::Value)>, name: Seq<char>)
    ensures
        params_map_of(s).contains_key(name) <==> exists|i: int|
            0 <= i < s.len() && s[i].0@ == name,
    decreases s.len(),
{
    if s.len() > 0 {
        lemma_params_map_domain(s.drop_last(), name);
        if s.last().0@ == name {
            assert(s[s.len() - 1].0@ == name);
        } else if params_map_of(s).contains_key(name) {
            let i = choose|i: int| 0 <= i < s.drop_last().len() && s.drop_last()[i].0@ == name;
            assert(s[i].0@ == name);
        } else {
            assert forall|i: int| 0 <= i < s.len() implies s[i].0@ != name by {
                if i < s.len() - 1 {
                    assert(s.drop_last()[i].0@ != name);
                }
            }
        }
    }
}

/// With unique names, the entry carrying a name gives its mapped value.
proof fn lemma_params_map_value(s: Seq<(String, serde_json::Value)>, i: int)
    requires
        unique_keys(s),
        0 <= i < s.len(),
    ensures
        params_map_of(s).contains_key(s[i].0@),
        params_map_of(s)[s[i].0@] == s[i].1,
    decreases s.len(),
{
    lemma_params_map_domain(s, s[i].0@);
    if i < s.len() - 1 {
        assert(s.drop_last()[i] == s[i]);
        assert(unique_keys(s.drop_last())) by {
            assert(forall|a: int, b: int|
                0 <= a < b < s.drop_last().len() ==> s.drop_last()[a] == s[a]
                    && s.drop_last()[b] == s[b]);
        }
        lemma_params_map_value(s.drop_last(), i);
        assert(s.last().0@ != s[i].0@);
    }
}

/// With unique names, replacing the entry that carries a name denotes the
/// same mapping as inserting the new value under that name.
proof fn lemma_params_map_update(
    s: Seq<(String, serde_json::Value)>,
    i: int,
    name: String,
    value: serde_json::Value,
)
    requires
        unique_keys(s),
        0 <= i < s.len(),
        s[i].0@ == name@,
    ensures
        params_map_of(s.update(i, (name, value))) =~= params_map_of(s).insert(name@, value),
        unique_keys(s.update(i, (name, value))),
    decreases s.len(),
{
    let t = s.update(i, (name, value));
    assert(unique_keys(t)) by {
        assert(forall|k: int| 0 <= k < t.len() ==> t[k].0@ == s[k].0@);
    }
    if i == s.len() - 1 {
        assert(t.drop_last() =~= s.drop_last());
        assert(t.last() == (name, value));
    } else {
        assert(unique_keys(s.drop_last())) by {
            assert(forall|a: int, b: int|
                0 <= a < b < s.drop_last().len() ==> s.drop_last()[a] == s[a]
                    && s.drop_last()[b] == s[b]);
        }
        assert(s.drop_last()[i] == s[i]);
        lemma_params_map_update(s.drop_last(), i, name, value);
        assert(t.drop_last() =~= s.drop_last().update(i, (name, value)));
        assert(t.last() == s.last());
        assert(s.last().0@ != name@);
    }
}

/// The mapping after binding a batch of entries in order.
pub open spec fn insert_all(
    m: Map<Seq<char>, serde_json::Value>,
    entries: Seq<(String, serde_json::Value)>,
) -> Map<Seq<char>, serde_json::Value>
    decreases entries.len(),
{
    if entries.len() == 0 {
        m
    } else {
        insert_all(m, entries.drop_last()).insert(entries.last().0@, entries.last().1)
    }
}

/// Binding a batch is binding its first entry, then the rest.
proof fn lemma_insert_all_step(
    m: Map<Seq<char>, serde_json::Value>,
    entries: Seq<(String, serde_json::Value)>,
)
    requires
        entries.len() > 0,
    ensures
        insert_all(m, entries) == insert_all(
            m.insert(entries[0].0@, entries[0].1),
            entries.subrange(1, entries.len() as int),
        ),
    decreases entries.len(),
{
    let tail = entries.subrange(1, entries.len() as int);
    let m2 = m.insert(entries[0].0@, entries[0].1);
    if entries.len() == 1 {
        assert(entries.drop_last().len() == 0);
        assert(tail.len() == 0);
        assert(entries.last() == entries[0]);
        assert(insert_all(m, entries) == insert_all(m, entries.drop_last()).insert(
            entries.last().0@,
            entries.last().1,
        ));
        assert(insert_all(m2, tail) == m2);
    } else {
        lemma_insert_all_step(m, entries.drop_last());
        assert(entries.drop_last()[0] == entries[0]);
        let dl_tail = entries.drop_last().subrange(1, entries.drop_last().len() as int);
        assert(dl_tail =~= tail.drop_last());
        assert(tail.last() == entries.last());
        assert(insert_all(m, entries) == insert_all(m, entries.drop_last()).insert(
            entries.last().0@,
            entries.last().1,
        ));
        assert(insert_all(m, entries.drop_last()) == insert_all(m2, tail.drop_last()));
        assert(insert_all(m2, tail) == insert_all(m2, tail.drop_last()).insert(
            tail.last().0@,
            tail.last().1,
        ));
    }
}

/// Find the entry carrying `name`, if any.
fn find_param(params: &Vec<(String, serde_json::Value)>, name: &String) -> (r: Option<usize>)
    ensures
        match r {
            Some(i) => i < params@.len() && params@[i as int].0@ == name@,
            None => forall|i: int| 0 <= i < params@.len() ==> params@[i].0@ != name@,
        },
{
    let n = params.len();
    let mut i: usize = 0;
    while i < n
        invariant
            i <= n,
            n == params@.len(),
            forall|k: int| 0 <= k < i ==> params@[k].0@ != name@,
        decreases n - i,
    {
        if params[i].0 == *name {
            return Some(i);
        }
        i += 1;
    }
    None
}

/// Insert one named parameter: the latest value under a name wins.
fn insert_param(
    params: &mut Vec<(String, serde_json::Value)>,
    name: String,
    value: serde_json::Value,
)
    requires
        unique_keys(old(params)@),
    ensures
        unique_keys(final(params)@),
        params_map_of(final(params)@) == params_map_of(old(params)@).insert(name@, value),
{
    match find_param(params, &name) {
        Some(i) => {
            proof {
                lemma_params_map_update(params@, i as int, name, value);
            }
            params.set(i, (name, value));
        },
        None => {
            proof {
                let t = old(params)@.push((name, value));
                assert(t.drop_last() =~= old(params)@);
            }
            params.push((name, value));
        },
    }
}

/// A statement before dispatch: its text, kind, language, and named
/// parameters, bound to the executable context it will be routed through —
/// a database name, plus a session token when it is issued inside an open
/// transaction.
#[derive(Debug)]
pub struct Statement {
    pub db_name: String,
    pub session_id: Option<String>,
    pub kind: StatementKind,
    pub command: String,
    pub language: Language,
    pub params: Vec<(String, serde_json::Value)>,
}

impl Statement {
    /// Well-formed: no two parameters share a name.
    pub open spec fn wf(self) -> bool {
        unique_keys(self.params@)
    }

    /// The parameter mapping this statement carries.
    pub open spec fn params_map(self) -> Map<Seq<char>, serde_json::Value> {
        params_map_of(self.params@)
    }

    /// A fresh statement bound to `db_name` (and to `session_id` when issued
    /// through a transaction), in the default language, with no parameters.
    pub(crate) fn new(
        db_name: String,
        session_id: Option<String>,
        command: String,
        kind: StatementKind,
    ) -> (r: Statement)
        ensures
            r.wf(),
            r.db_name == db_name,
            r.session_id == session_id,
            r.command == command,
            r.kind == kind,
            r.language == Language::SQL,
            r.params_map() == Map::<Seq<char>, serde_json::Value>::empty(),
    {
        Statement {
            db_name,
            session_id,
            kind,
            command,
            language: Language::SQL,
            params: Vec::new(),
        }
    }

    /// Bind one named parameter. Binding the same name twice retains only
    /// the last value.
    pub fn param(self, name: &str, value: serde_json::Value) -> (r: Statement)
        requires
            self.wf(),
        ensures
            r.wf(),
            r.params_map() == self.params_map().insert(name@, value),
            r.db_name == self.db_name,
            r.session_id == self.session_id,
            r.command == self.command,
            r.kind == self.kind,
            r.language == self.language,
    {
        let mut s = self;
        insert_param(&mut s.params, String::from_str(name), value);
        s
    }

    /// The bound value of one parameter name, if any.
    pub fn param_value(&self, name: &str) -> (r: Option<&serde_json::Value>)
        requires
            self.wf(),
        ensures
            match r {
                Some(v) => self.params_map().contains_key(name@) && *v
                    == self.params_map().index(name@),
                None => !self.params_map().contains_key(name@),
            },
    {
        let key = String::from_str(name);
        match find_param(&self.params, &key) {
            Some(i) => {
                proof {
                    lemma_params_map_value(self.params@, i as int);
                }
                Some(&self.params[i].1)
            },
            None => {
                proof {
                    lemma_params_map_domain(self.params@, name@);
                }
                None
            },
        }
    }

    /// Bind a batch of named parameters, in order: as with single binding,
    /// the latest value under each name wins.
    pub fn params(self, entries: Vec<(String, serde_json::Value)>) -> (r: Statement)
        requires
            self.wf(),
        ensures
            r.wf(),
            r.params_map() == insert_all(self.params_map(), entries@),
            r.db_name == self.db_name,
            r.session_id == self.session_id,
            r.command == self.command,
            r.kind == self.kind,
            r.language == self.language,
    {
        let ghost m0 = self.params_map();
        let ghost all = entries@;
        let mut s = self;
        let mut rest = entries;
        while rest.len() > 0
            invariant
                unique_keys(s.params@),
                insert_all(params_map_of(s.params@), rest@) == insert_all(m0, all),
                s.db_name == self.db_name,
                s.session_id == self.session_id,
                s.command == self.command,
                s.kind == self.kind,
                s.language == self.language,
            decreases rest.len(),
        {
            proof {
                lemma_insert_all_step(params_map_of(s.params@), rest@);
            }
            let pair = rest.remove(0);
            insert_param(&mut s.params, pair.0, pair.1);
        }
        s
    }

    /// Override the default query language.
    pub fn language(self, language: Language) -> (r: Statement)
        ensures
            r.language == language,
            r.db_name == self.db_name,
            r.session_id == self.session_id,
            r.command == self.command,
            r.kind == self.kind,
            r.params == self.params,
    {
        let mut s = self;
        s.language = language;
        s
    }
}

/// Binding a name twice retains only the later value, whatever else is
/// bound in between under other names.
pub proof fn lemma_param_last_write_wins(
    m: Map<Seq<char>, serde_json::Value>,
    name: Seq<char>,
    first: serde_json::Value,
    second: serde_json::Value,
)
    ensures
        m.insert(name, first).insert(name, second) == m.insert(name, second),
{
    assert(m.insert(name, first).insert(name, second) =~= m.insert(name, second));
}

} // verus!

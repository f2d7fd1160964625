//! Terminal capability descriptions: the records of each terminal, their validation when
//! a set is built, and the catalog that groups terminals by the value of `$TERM` they set.

use vstd::prelude::*;

use std::sync::Arc;

use crate::order::{
    lemma_absent, lemma_insert_contains, lemma_insert_sorted, lemma_take_next_contains, same_text,
    search, strictly_sorted, texts,
};

mod lattice;

pub use self::lattice::{
    flag_below, lemma_below_transitive, lemma_meet_associative, lemma_meet_greatest, lemma_meet_commutative, lemma_meet_idempotent,
    lemma_meet_lower_bound, ColorCap, CursorCap, CursorStyleCap, FancyUnderlineCap, RgbCapSet,
    ScrollCap, StyleCap, TermCap, UnderlineCap,
};

verus! {

/// Name of the terminal emulator or similar program
#[derive(Debug, Clone)]
pub struct TerminalName {
    /// A name for use within code: alphanumerics, hyphens and underscores only
    pub compact: String,
    /// The name of the emulator, as a human-readable name
    pub pretty: String,
    /// The value of the `$TERM` environment variable used by this terminal
    pub term: String,
}

/// A [`TermCap`] with an associated [`TerminalName`]
#[derive(Debug, Clone)]
pub struct LabelledTermCap {
    /// Name of the terminal
    pub name: TerminalName,
    /// Capabilities associated with the terminal
    pub caps: TermCap,
}

impl TerminalName {
    /// A copy of the name
    pub fn copied(&self) -> (r: Self)
        ensures
            r == *self,
    {
        TerminalName {
            compact: self.compact.clone(),
            pretty: self.pretty.clone(),
            term: self.term.clone(),
        }
    }
}

impl LabelledTermCap {
    /// A copy of the labelled capabilities
    pub fn copied(&self) -> (r: Self)
        ensures
            r == *self,
    {
        LabelledTermCap { name: self.name.copied(), caps: self.caps }
    }
}

/// A character allowed in a compact terminal name
pub open spec fn compact_char(c: char) -> bool {
    ('a' <= c <= 'z') || ('A' <= c <= 'Z') || ('0' <= c <= '9') || c == '-' || c == '_'
}

/// A compact terminal name: not empty, and made of alphanumerics, hyphens and underscores
pub open spec fn valid_compact_name(s: Seq<char>) -> bool {
    s.len() > 0 && forall|i: int| 0 <= i < s.len() ==> compact_char(#[trigger] s[i])
}

/// Checks that `s` may serve as a compact terminal name
pub fn is_valid_compact_name(s: &str) -> (r: bool)
    ensures
        r == valid_compact_name(s@),
{
    let n = s.unicode_len();
    if n == 0 {
        return false;
    }
    let mut i: usize = 0;
    while i < n
        invariant
            i <= n,
            n == s@.len(),
            forall|j: int| 0 <= j < i ==> compact_char(#[trigger] s@[j]),
        decreases n - i,
    {
        let c = s.get_char(i);
        if !(('a' <= c && c <= 'z') || ('A' <= c && c <= 'Z') || ('0' <= c && c <= '9') || c
            == '-' || c == '_') {
            assert(!compact_char(s@[i as int]));
            return false;
        }
        i = i + 1;
    }
    true
}

/// The compact names of a list of terminals, in order
pub open spec fn compact_ids(list: Seq<LabelledTermCap>) -> Seq<Seq<char>> {
    list.map_values(|t: LabelledTermCap| t.name.compact@)
}

/// The names that occur more than once in `ids`, each once, in the order in which they
/// first repeat
pub open spec fn duplicated_ids(ids: Seq<Seq<char>>) -> Seq<Seq<char>>
    decreases ids.len(),
{
    if ids.len() == 0 {
        Seq::empty()
    } else {
        let earlier = duplicated_ids(ids.drop_last());
        if ids.drop_last().contains(ids.last()) && !earlier.contains(ids.last()) {
            earlier.push(ids.last())
        } else {
            earlier
        }
    }
}

/// `d[0], d[1], ..., d[n-1]`
pub open spec fn comma_list(d: Seq<Seq<char>>) -> Seq<char>
    decreases d.len(),
{
    if d.len() == 0 {
        Seq::empty()
    } else if d.len() == 1 {
        d[0]
    } else {
        comma_list(d.drop_last()) + ", "@ + d.last()
    }
}

/// The message that reports the duplicated names `d`
pub open spec fn duplicates_message(d: Seq<Seq<char>>) -> Seq<char> {
    if d.len() == 1 {
        "Duplicated terminal name: "@ + d[0]
    } else {
        "Duplicated terminal names: "@ + comma_list(d.drop_last()) + ", and "@ + d.last()
    }
}

/// Builds the message that reports the duplicated names `d`
fn format_duplicates(d: &Vec<String>) -> (r: String)
    requires
        d@.len() > 0,
    ensures
        r@ == duplicates_message(texts(d@)),
{
    if d.len() == 1 {
        let mut m = String::from_str("Duplicated terminal name: ");
        m.append(d[0].as_str());
        return m;
    }
    let ghost k = texts(d@);
    let last = d.len() - 1;
    let mut m = String::from_str("Duplicated terminal names: ");
    let mut i: usize = 0;
    while i < last
        invariant
            i <= last,
            last == d@.len() - 1,
            k == texts(d@),
            m@ == "Duplicated terminal names: "@ + comma_list(k.take(i as int)),
        decreases last - i,
    {
        if i != 0 {
            m.append(", ");
        }
        m.append(d[i].as_str());
        proof {
            assert(k.take(i + 1).drop_last() =~= k.take(i as int));
            if i == 0 {
                assert(comma_list(k.take(0)) =~= Seq::<char>::empty());
            }
        }
        assert(m@ =~= "Duplicated terminal names: "@ + comma_list(k.take(i + 1)));
        i = i + 1;
    }
    m.append(", and ");
    m.append(d[last].as_str());
    assert(k.take(last as int) =~= k.drop_last());
    m
}

/// Checks whether `d` holds the text `x`
fn holds_text(d: &Vec<String>, x: &str) -> (r: bool)
    ensures
        r == texts(d@).contains(x@),
{
    let mut i: usize = 0;
    while i < d.len()
        invariant
            i <= d@.len(),
            forall|j: int| 0 <= j < i ==> d@[j]@ != x@,
        decreases d@.len() - i,
    {
        if same_text(d[i].as_str(), x) {
            assert(texts(d@)[i as int] == x@);
            return true;
        }
        i = i + 1;
    }
    assert(!texts(d@).contains(x@)) by {
        if texts(d@).contains(x@) {
            let j = choose|j: int| 0 <= j < texts(d@).len() && texts(d@)[j] == x@;
            assert(d@[j]@ == x@);
        }
    }
    false
}

/// The duplicated names are exactly the names that occur at two positions or more, each
/// listed once
pub proof fn lemma_duplicates_listed(ids: Seq<Seq<char>>)
    ensures
        forall|x: Seq<char>| #[trigger] duplicated_ids(ids).contains(x) <==> exists|a: int, b: int|
            0 <= a < b < ids.len() && #[trigger] ids[a] == x && #[trigger] ids[b] == x,
        forall|p: int, q: int|
            0 <= p < q < duplicated_ids(ids).len() ==> #[trigger] duplicated_ids(ids)[p] != #[trigger] duplicated_ids(ids)[q],
    decreases ids.len(),
{
    if ids.len() > 0 {
        let rest = ids.drop_last();
        let x0 = ids.last();
        lemma_duplicates_listed(rest);
        let d = duplicated_ids(ids);
        let e = duplicated_ids(rest);
        assert forall|x: Seq<char>| #[trigger] d.contains(x) <==> exists|a: int, b: int|
            0 <= a < b < ids.len() && #[trigger] ids[a] == x && #[trigger] ids[b] == x by {
            if d.contains(x) {
                if e.contains(x) {
                    let (a, b) = choose|a: int, b: int| 0 <= a < b < rest.len() && #[trigger] rest[a] == x && #[trigger] rest[b] == x;
                    assert(ids[a] == x && ids[b] == x);
                } else {
                    assert(x == x0);
                    let a = choose|a: int| 0 <= a < rest.len() && rest[a] == x0;
                    assert(ids[a] == x && ids[ids.len() - 1] == x);
                }
            }
            if exists|a: int, b: int| 0 <= a < b < ids.len() && #[trigger] ids[a] == x && #[trigger] ids[b] == x {
                let (a, b) = choose|a: int, b: int| 0 <= a < b < ids.len() && #[trigger] ids[a] == x && #[trigger] ids[b] == x;
                if b < ids.len() - 1 {
                    assert(rest[a] == x && rest[b] == x);
                    assert(e.contains(x));
                    if !(rest.contains(x0) && !e.contains(x0)) {
                    } else {
                        assert(d == e.push(x0));
                        let k = choose|k: int| 0 <= k < e.len() && e[k] == x;
                        assert(d[k] == x);
                    }
                } else {
                    assert(rest[a] == x0);
                    assert(rest.contains(x0));
                    if e.contains(x0) {
                        assert(d == e);
                    } else {
                        assert(d[d.len() - 1] == x0);
                    }
                }
            }
        }
    }
}

#[verifier::external_type_specification]
#[verifier::external_body]
pub struct ExYamlError(serde_yaml::Error);

#[verifier::external_type_specification]
#[verifier::external_body]
pub struct ExIoError(std::io::Error);

/// Error occurring from loading a [`TermCapSet`]
#[derive(Debug)]
pub enum LoadTermCapsError {
    /// An error from failing to read the file
    Io(std::io::Error),
    /// An error from failing to parse the content of the file, or from a record that breaks
    /// the schema
    Yaml(serde_yaml::Error),
    /// An error from duplicated terminal names; it holds the message listing them
    DuplicateNames(String),
}

/// Relies on serde_yaml's `de::Error::custom`: a parse error that carries the given message.
#[verifier::external_body]
fn schema_error(msg: &str) -> serde_yaml::Error {
    <serde_yaml::Error as serde::de::Error>::custom(msg)
}

/// Capabilities for a set of terminal emulators or similar programs, keyed by compact name
pub struct TermCapSet {
    names: Vec<String>,
    terminals: Vec<LabelledTermCap>,
}

impl TermCapSet {
    /// The terminals, in strictly ascending order of compact name
    pub closed spec fn records(&self) -> Seq<LabelledTermCap> {
        self.terminals@
    }

    /// The compact names are the keys of the terminals, strictly ascending, and valid
    pub closed spec fn wf(&self) -> bool {
        &&& self.names@.len() == self.terminals@.len()
        &&& texts(self.names@) == compact_ids(self.terminals@)
        &&& strictly_sorted(compact_ids(self.terminals@))
        &&& forall|i: int| 0 <= i < self.terminals@.len() ==> valid_compact_name(#[trigger] self.terminals@[i].name.compact@)
    }

    /// Builds the set from terminal records, in the order in which they were read
    ///
    /// A record whose compact name breaks the naming rule gives a schema error. Otherwise
    /// every record is scanned, and if any compact name repeats, one error lists every
    /// repeated name once, in the order in which they first repeat.
    pub fn from_terminals(list: Vec<LabelledTermCap>) -> (r: Result<TermCapSet, LoadTermCapsError>)
        ensures
            (exists|i: int| 0 <= i < list@.len() && !valid_compact_name(#[trigger] list@[i].name.compact@))
                <==> r matches Err(LoadTermCapsError::Yaml(_)),
            (forall|i: int| 0 <= i < list@.len() ==> valid_compact_name(#[trigger] list@[i].name.compact@))
                ==> {
                let d = duplicated_ids(compact_ids(list@));
                match r {
                    Ok(set) => {
                        &&& d.len() == 0
                        &&& set.wf()
                        &&& strictly_sorted(compact_ids(set.records()))
                        &&& set.records().len() == list@.len()
                        &&& forall|i: int| 0 <= i < list@.len() ==> set.records().contains(#[trigger] list@[i])
                        &&& forall|i: int| 0 <= i < set.records().len() ==> list@.contains(#[trigger] set.records()[i])
                    },
                    Err(LoadTermCapsError::DuplicateNames(m)) => d.len() > 0 && m@ == duplicates_message(d),
                    Err(_) => false,
                }
            },
    {
        let n = list.len();
        let mut i: usize = 0;
        while i < n
            invariant
                i <= n,
                n == list@.len(),
                forall|j: int| 0 <= j < i ==> valid_compact_name(#[trigger] list@[j].name.compact@),
            decreases n - i,
        {
            if !is_valid_compact_name(list[i].name.compact.as_str()) {
                return Err(LoadTermCapsError::Yaml(schema_error(
                    "Compact name must consist of alphanumerics, hyphens, or underscores",
                )));
            }
            i = i + 1;
        }
        let ghost ids = compact_ids(list@);
        let ghost mut repeats: nat = 0;
        let mut names: Vec<String> = Vec::new();
        let mut terminals: Vec<LabelledTermCap> = Vec::new();
        let mut dups: Vec<String> = Vec::new();
        i = 0;
        while i < n
            invariant
                i <= n,
                n == list@.len(),
                ids == compact_ids(list@),
                forall|j: int| 0 <= j < n ==> valid_compact_name(#[trigger] list@[j].name.compact@),
                names@.len() == terminals@.len(),
                texts(names@) == compact_ids(terminals@),
                strictly_sorted(texts(names@)),
                forall|y: Seq<char>| texts(names@).contains(y) <==> ids.take(i as int).contains(y),
                forall|k: int| 0 <= k < terminals@.len() ==> list@.take(i as int).contains(#[trigger] terminals@[k]),
                terminals@.len() + repeats == i,
                repeats > 0 ==> dups@.len() > 0,
                repeats == 0 ==> forall|j: int| 0 <= j < i ==> terminals@.contains(#[trigger] list@[j]),
                texts(dups@) == duplicated_ids(ids.take(i as int)),
            decreases n - i,
        {
            let rec = &list[i];
            let key = rec.name.compact.as_str();
            let ghost old_names = texts(names@);
            let ghost old_terminals = terminals@;
            proof {
                assert(ids.take(i + 1).drop_last() =~= ids.take(i as int));
                assert(ids[i as int] == key@);
                lemma_take_next_contains(ids, i as int);
                lemma_take_next_contains(list@, i as int);
            }
            match search(&names, key) {
                Ok(at) => {
                    assert(texts(names@)[at as int] == key@);
                    assert(texts(names@).contains(key@));
                    if !holds_text(&dups, key) {
                        dups.push(rec.name.compact.clone());
                        assert(texts(dups@) =~= duplicated_ids(ids.take(i as int)).push(key@));
                    }
                    assert(texts(dups@) == duplicated_ids(ids.take(i + 1)));
                    proof {
                        repeats = repeats + 1;
                    }
                },
                Err(pos) => {
                    proof {
                        lemma_absent(texts(names@), key@, pos);
                        lemma_insert_sorted(texts(names@), key@, pos);
                        assert(!ids.take(i as int).contains(key@));
                        assert(texts(dups@) == duplicated_ids(ids.take(i + 1)));
                    }
                    names.insert(pos, rec.name.compact.clone());
                    terminals.insert(pos, rec.copied());
                    proof {
                        assert(texts(names@) =~= old_names.insert(pos as int, key@));
                        assert(compact_ids(terminals@) =~= compact_ids(old_terminals).insert(pos as int, key@));
                        lemma_insert_contains(old_names, pos as int, key@);
                        lemma_insert_contains(old_terminals, pos as int, list@[i as int]);
                    }
                },
            }
            proof {
                assert forall|k: int| 0 <= k < terminals@.len() implies list@.take(i + 1).contains(
                    #[trigger] terminals@[k],
                ) by {
                    assert(terminals@.contains(terminals@[k]));
                }
            }
            i = i + 1;
        }
        proof {
            assert(ids.take(n as int) =~= ids);
            assert(list@.take(n as int) =~= list@);
            assert forall|k: int| 0 <= k < terminals@.len() implies valid_compact_name(
                #[trigger] terminals@[k].name.compact@,
            ) by {
                let j = choose|j: int| 0 <= j < n && #[trigger] list@[j] == terminals@[k];
            }
        }
        if dups.len() == 0 {
            Ok(TermCapSet { names, terminals })
        } else {
            Err(LoadTermCapsError::DuplicateNames(format_duplicates(&dups)))
        }
    }
    /// Groups the terminals by the value of `$TERM` that they use, with the minimum
    /// capabilities of each group: the meet of its members' capabilities, folded in
    /// ascending order of compact name
    pub fn group_by_env_var(self) -> (r: GroupedTermCaps)
        requires
            self.wf(),
        ensures
            r.wf(),
            r.records() == self.records(),
            strictly_sorted(compact_ids(r.records())),
            strictly_sorted(r.signals()),
            forall|y: Seq<char>| r.signals().contains(y) <==> term_values(r.records()).contains(y),
    {
        let n = self.terminals.len();
        let ghost tv = term_values(self.terminals@);
        let mut by_name: Vec<Arc<LabelledTermCap>> = Vec::new();
        let mut terms: Vec<String> = Vec::new();
        let mut i: usize = 0;
        while i < n
            invariant
                i <= n,
                n == self.terminals@.len(),
                tv == term_values(self.terminals@),
                shared_values(by_name@) == self.terminals@.take(i as int),
                strictly_sorted(texts(terms@)),
                forall|y: Seq<char>| texts(terms@).contains(y) <==> tv.take(i as int).contains(y),
            decreases n - i,
        {
            let rec = &self.terminals[i];
            let ghost old_terms = texts(terms@);
            let ghost old_by_name = shared_values(by_name@);
            by_name.push(Arc::new(rec.copied()));
            proof {
                assert(shared_values(by_name@) =~= old_by_name.push(*rec));
                assert(self.terminals@.take(i + 1) =~= self.terminals@.take(i as int).push(*rec));
                lemma_take_next_contains(tv, i as int);
                assert(tv[i as int] == rec.name.term@);
            }
            match search(&terms, rec.name.term.as_str()) {
                Ok(at) => {
                    assert(texts(terms@)[at as int] == rec.name.term@);
                },
                Err(pos) => {
                    proof {
                        lemma_insert_sorted(old_terms, rec.name.term@, pos);
                        lemma_insert_contains(old_terms, pos as int, rec.name.term@);
                    }
                    terms.insert(pos, rec.name.term.clone());
                    assert(texts(terms@) =~= old_terms.insert(pos as int, rec.name.term@));
                },
            }
            i = i + 1;
        }
        let ghost all = shared_values(by_name@);
        proof {
            assert(self.terminals@.take(n as int) =~= self.terminals@);
            assert(tv.take(n as int) =~= tv);
        }
        let mut groups: Vec<TermCapGroup> = Vec::new();
        let mut j: usize = 0;
        while j < terms.len()
            invariant
                j <= terms@.len(),
                all == shared_values(by_name@),
                all == self.terminals@,
                tv == term_values(all),
                forall|y: Seq<char>| texts(terms@).contains(y) <==> tv.contains(y),
                groups@.len() == j,
                forall|q: int| 0 <= q < j ==> {
                    &&& (#[trigger] groups@[q]).member_records() == with_term(all, texts(terms@)[q])
                    &&& groups@[q].spec_min_caps() == meet_all(with_term(all, texts(terms@)[q]))
                },
            decreases terms@.len() - j,
        {
            let term = terms[j].as_str();
            proof {
                assert(texts(terms@)[j as int] == term@);
                assert(texts(terms@).contains(term@));
                assert(tv.contains(term@));
                let k = choose|k: int| 0 <= k < tv.len() && #[trigger] tv[k] == term@;
                assert(tv[k] == all[k].name.term@);
                let pred = |r: LabelledTermCap| r.name.term@ == term@;
                assert(pred(all[k]));
                all.lemma_filter_contains(pred, k);
                assert(with_term(all, term@).contains(all[k]));
            }
            let g = collect_group(&by_name, term);
            groups.push(g);
            j = j + 1;
        }
        let r = GroupedTermCaps { names: self.names, by_name, terms, by_term_var: groups };
        assert(r.records() == all);
        assert forall|j: int| 0 <= j < r.terms@.len() implies {
            &&& (#[trigger] r.group(j)).member_records() == with_term(r.records(), r.signals()[j])
            &&& r.group(j).spec_min_caps() == meet_all(with_term(r.records(), r.signals()[j]))
        } by {
            assert(r.group(j) == groups@[j]);
        }
        r
    }
}

/// The terminals of `recs` whose `$TERM` value is `t`, in their order
pub open spec fn with_term(recs: Seq<LabelledTermCap>, t: Seq<char>) -> Seq<LabelledTermCap> {
    recs.filter(|r: LabelledTermCap| r.name.term@ == t)
}

/// The `$TERM` values of `recs`, in their order
pub open spec fn term_values(recs: Seq<LabelledTermCap>) -> Seq<Seq<char>> {
    recs.map_values(|r: LabelledTermCap| r.name.term@)
}

/// The capabilities of the first of `recs`, met with those of each later one in turn
pub open spec fn meet_all(recs: Seq<LabelledTermCap>) -> TermCap
    decreases recs.len(),
{
    if recs.len() <= 1 {
        recs[0].caps
    } else {
        meet_all(recs.drop_last()).meet(recs.last().caps)
    }
}

/// The values behind a list of shared handles
pub open spec fn shared_values(v: Seq<Arc<LabelledTermCap>>) -> Seq<LabelledTermCap> {
    v.map_values(|a: Arc<LabelledTermCap>| *a)
}

/// Grouped minimum [`TermCap`] for a set of terminals that all use the same `$TERM` value
pub struct TermCapGroup {
    min_caps: TermCap,
    members: Vec<Arc<LabelledTermCap>>,
}

/// Collected [`TermCap`]s grouped by the value of `$TERM` that they set
pub struct GroupedTermCaps {
    names: Vec<String>,
    by_name: Vec<Arc<LabelledTermCap>>,
    terms: Vec<String>,
    by_term_var: Vec<TermCapGroup>,
}

impl TermCapGroup {
    /// The minimum capability set of the group
    pub closed spec fn spec_min_caps(&self) -> TermCap {
        self.min_caps
    }

    /// The terminals of the group, in ascending order of compact name
    pub closed spec fn member_records(&self) -> Seq<LabelledTermCap> {
        shared_values(self.members@)
    }

    /// Minimum capability set among terminals with this `$TERM` value
    pub fn min_caps(&self) -> (r: &TermCap)
        ensures
            *r == self.spec_min_caps(),
    {
        &self.min_caps
    }

    /// The names of the terminals with this `$TERM` value, in ascending order of compact name
    pub fn members(&self) -> (r: Vec<&TerminalName>)
        ensures
            r@.len() == self.member_records().len(),
            forall|i: int| 0 <= i < r@.len() ==> *r@[i] == #[trigger] self.member_records()[i].name,
    {
        let mut r: Vec<&TerminalName> = Vec::new();
        let mut i: usize = 0;
        while i < self.members.len()
            invariant
                i <= self.members@.len(),
                r@.len() == i,
                forall|k: int| 0 <= k < i ==> *r@[k] == #[trigger] self.member_records()[k].name,
            decreases self.members@.len() - i,
        {
            r.push(&self.members[i].name);
            i = i + 1;
        }
        r
    }
}

/// Relies on `Arc::clone`: another handle to the same value.
#[verifier::external_body]
fn share(a: &Arc<LabelledTermCap>) -> (r: Arc<LabelledTermCap>)
    ensures
        *r == **a,
{
    Arc::clone(a)
}

/// Gathers the terminals of `by_name` whose `$TERM` value is `term`, with the meet of their
/// capabilities
fn collect_group(by_name: &Vec<Arc<LabelledTermCap>>, term: &str) -> (g: TermCapGroup)
    requires
        with_term(shared_values(by_name@), term@).len() > 0,
    ensures
        g.member_records() == with_term(shared_values(by_name@), term@),
        g.spec_min_caps() == meet_all(with_term(shared_values(by_name@), term@)),
{
    let ghost all = shared_values(by_name@);
    let ghost pred = |r: LabelledTermCap| r.name.term@ == term@;
    let mut members: Vec<Arc<LabelledTermCap>> = Vec::new();
    let mut min_caps: Option<TermCap> = None;
    let mut k: usize = 0;
    while k < by_name.len()
        invariant
            k <= by_name@.len(),
            all == shared_values(by_name@),
            pred == (|r: LabelledTermCap| r.name.term@ == term@),
            shared_values(members@) == all.take(k as int).filter(pred),
            min_caps is None <==> members@.len() == 0,
            min_caps matches Some(m) ==> m == meet_all(shared_values(members@)),
        decreases by_name@.len() - k,
    {
        let rec: &LabelledTermCap = &by_name[k];
        let ghost before = shared_values(members@);
        proof {
            assert(all.take(k + 1).drop_last() =~= all.take(k as int));
            assert(all.take(k + 1).last() == *rec);
            assert(pred(*rec) == (rec.name.term@ == term@));
            reveal(Seq::filter);
            assert(all.take(k + 1).filter(pred) == (if pred(*rec) {
                all.take(k as int).filter(pred).push(*rec)
            } else {
                all.take(k as int).filter(pred)
            }));
        }
        if same_text(rec.name.term.as_str(), term) {
            members.push(share(&by_name[k]));
            min_caps = match min_caps {
                None => Some(rec.caps),
                Some(m) => Some(m.min(rec.caps)),
            };
            proof {
                assert(shared_values(members@) =~= before.push(*rec));
                assert(shared_values(members@).drop_last() =~= before);
            }
        }
        k = k + 1;
    }
    assert(all.take(k as int) =~= all);
    assert(with_term(all, term@) == all.filter(pred));
    TermCapGroup { min_caps: min_caps.unwrap(), members }
}

impl GroupedTermCaps {
    /// All terminals, in strictly ascending order of compact name
    pub closed spec fn records(&self) -> Seq<LabelledTermCap> {
        shared_values(self.by_name@)
    }

    /// The `$TERM` values that some terminal uses, in strictly ascending order
    pub closed spec fn signals(&self) -> Seq<Seq<char>> {
        texts(self.terms@)
    }

    /// The group of the `j`-th `$TERM` value
    pub closed spec fn group(&self, j: int) -> TermCapGroup {
        self.by_term_var@[j]
    }

    /// The two indices agree: each `$TERM` value that a terminal uses has one group, made of
    /// exactly the terminals that use it, with the meet of their capabilities
    pub closed spec fn wf(&self) -> bool {
        &&& self.names@.len() == self.by_name@.len()
        &&& texts(self.names@) == compact_ids(self.records())
        &&& strictly_sorted(compact_ids(self.records()))
        &&& strictly_sorted(self.signals())
        &&& forall|y: Seq<char>| self.signals().contains(y) <==> term_values(self.records()).contains(y)
        &&& self.by_term_var@.len() == self.terms@.len()
        &&& forall|j: int| 0 <= j < self.terms@.len() ==> {
            &&& (#[trigger] self.group(j)).member_records() == with_term(self.records(), self.signals()[j])
            &&& self.group(j).spec_min_caps() == meet_all(with_term(self.records(), self.signals()[j]))
        }
    }

    /// Returns the group of terminals that use the provided value of `$TERM`, if there are any
    pub fn get(&self, term_env_var: &str) -> (r: Option<&TermCapGroup>)
        requires
            self.wf(),
        ensures
            r is Some <==> term_values(self.records()).contains(term_env_var@),
            r matches Some(g) ==> {
                &&& g.member_records() == with_term(self.records(), term_env_var@)
                &&& g.member_records().len() > 0
                &&& strictly_sorted(compact_ids(g.member_records()))
                &&& g.spec_min_caps() == meet_all(with_term(self.records(), term_env_var@))
            },
    {
        proof {
            lemma_with_term_sorted(self.records(), term_env_var@);
        }
        match search(&self.terms, term_env_var) {
            Ok(j) => {
                assert(self.signals()[j as int] == term_env_var@);
                assert(self.signals().contains(term_env_var@));
                proof {
                    let k = choose|k: int| 0 <= k < term_values(self.records()).len() && #[trigger] term_values(self.records())[k] == term_env_var@;
                    assert(term_values(self.records())[k] == self.records()[k].name.term@);
                    self.records().lemma_filter_contains(|r: LabelledTermCap| r.name.term@ == term_env_var@, k);
                }
                assert(self.group(j as int) == self.by_term_var@[j as int]);
                assert(self.group(j as int).member_records() == with_term(self.records(), term_env_var@));
                Some(&self.by_term_var[j])
            },
            Err(j) => {
                proof {
                    lemma_absent(self.signals(), term_env_var@, j);
                }
                None
            },
        }
    }

    /// Returns the terminal with the given compact name
    pub fn get_by_name(&self, compact_name: &str) -> (r: Option<&Arc<LabelledTermCap>>)
        requires
            self.wf(),
        ensures
            r is Some <==> compact_ids(self.records()).contains(compact_name@),
            r matches Some(t) ==> self.records().contains(**t) && (**t).name.compact@ == compact_name@,
            r matches Some(t) ==> forall|k: int| 0 <= k < self.records().len() && #[trigger] compact_ids(self.records())[k] == compact_name@ ==> self.records()[k] == **t,
            strictly_sorted(compact_ids(self.records())),
    {
        match search(&self.names, compact_name) {
            Ok(k) => {
                assert(compact_ids(self.records())[k as int] == compact_name@);
                assert(self.records()[k as int] == *self.by_name@[k as int]);
                assert forall|q: int| 0 <= q < self.records().len() && #[trigger] compact_ids(self.records())[q] == compact_name@ implies self.records()[q] == *self.by_name@[k as int] by {
                    crate::order::lemma_lex_irreflexive(compact_name@, 0);
                }
                Some(&self.by_name[k])
            },
            Err(k) => {
                proof {
                    lemma_absent(texts(self.names@), compact_name@, k);
                }
                None
            },
        }
    }

    /// All values of `$TERM` that some terminal uses, in strictly ascending order
    pub fn env_vars(&self) -> (r: Vec<&str>)
        requires
            self.wf(),
        ensures
            strictly_sorted(self.signals()),
            forall|y: Seq<char>| self.signals().contains(y) <==> term_values(self.records()).contains(y),
            r@.len() == self.signals().len(),
            forall|j: int| 0 <= j < r@.len() ==> r@[j]@ == #[trigger] self.signals()[j],
    {
        let mut r: Vec<&str> = Vec::new();
        let mut j: usize = 0;
        while j < self.terms.len()
            invariant
                j <= self.terms@.len(),
                r@.len() == j,
                forall|k: int| 0 <= k < j ==> r@[k]@ == #[trigger] self.signals()[k],
            decreases self.terms@.len() - j,
        {
            r.push(self.terms[j].as_str());
            j = j + 1;
        }
        r
    }

    /// All terminals, in strictly ascending order of compact name
    pub fn terminals(&self) -> (r: Vec<&Arc<LabelledTermCap>>)
        requires
            self.wf(),
        ensures
            strictly_sorted(compact_ids(self.records())),
            r@.len() == self.records().len(),
            forall|k: int| 0 <= k < r@.len() ==> **r@[k] == #[trigger] self.records()[k],
    {
        let mut r: Vec<&Arc<LabelledTermCap>> = Vec::new();
        let mut k: usize = 0;
        while k < self.by_name.len()
            invariant
                k <= self.by_name@.len(),
                r@.len() == k,
                forall|i: int| 0 <= i < k ==> **r@[i] == #[trigger] self.records()[i],
            decreases self.by_name@.len() - k,
        {
            r.push(&self.by_name[k]);
            k = k + 1;
        }
        r
    }
}

/// Terminals that all report one `$TERM` value and the same capabilities make up a single
/// group: it holds all of them, and its minimum capabilities are those capabilities
pub proof fn lemma_uniform_group(recs: Seq<LabelledTermCap>, term: Seq<char>, caps: TermCap)
    requires
        recs.len() > 0,
        forall|i: int| 0 <= i < recs.len() ==> (#[trigger] recs[i]).name.term@ == term && recs[i].caps == caps,
    ensures
        forall|y: Seq<char>| term_values(recs).contains(y) <==> y == term,
        with_term(recs, term) == recs,
        meet_all(with_term(recs, term)) == caps,
    decreases recs.len(),
{
    reveal(Seq::filter);
    assert(term_values(recs)[0] == term);
    assert forall|y: Seq<char>| term_values(recs).contains(y) implies y == term by {
        let k = choose|k: int| 0 <= k < term_values(recs).len() && term_values(recs)[k] == y;
        assert(recs[k].name.term@ == term);
    }
    if recs.len() > 1 {
        let rest = recs.drop_last();
        lemma_uniform_group(rest, term, caps);
        assert(with_term(recs, term) == with_term(rest, term).push(recs.last()));
        assert(with_term(recs, term) =~= recs);
        assert(with_term(recs, term).drop_last() =~= rest);
        lemma_meet_idempotent(recs.last().caps);
    } else {
        assert(recs.drop_last().filter(|r: LabelledTermCap| r.name.term@ == term) =~= Seq::<LabelledTermCap>::empty());
        assert(with_term(recs, term) =~= recs);
    }
}

/// Keeping only the terminals with one `$TERM` value keeps them in strictly ascending order
/// of compact name
pub proof fn lemma_with_term_sorted(recs: Seq<LabelledTermCap>, t: Seq<char>)
    requires
        strictly_sorted(compact_ids(recs)),
    ensures
        strictly_sorted(compact_ids(with_term(recs, t))),
        forall|x: LabelledTermCap| #[trigger] with_term(recs, t).contains(x) ==> recs.contains(x),
    decreases recs.len(),
{
    reveal(Seq::filter);
    let pred = |r: LabelledTermCap| r.name.term@ == t;
    if recs.len() > 0 {
        let rest = recs.drop_last();
        assert(compact_ids(rest) =~= compact_ids(recs).drop_last());
        lemma_with_term_sorted(rest, t);
        let f = with_term(rest, t);
        assert forall|x: LabelledTermCap| #[trigger] with_term(recs, t).contains(x) implies recs.contains(x) by {
            if f.contains(x) {
                let k = choose|k: int| 0 <= k < rest.len() && rest[k] == x;
                assert(recs[k] == x);
            } else {
                assert(x == recs.last());
                assert(recs[recs.len() - 1] == x);
            }
        }
        if pred(recs.last()) {
            let g = with_term(recs, t);
            assert(g == f.push(recs.last()));
            assert forall|a: int, b: int| 0 <= a < b < compact_ids(g).len() implies crate::order::name_lt(
                #[trigger] compact_ids(g)[a],
                #[trigger] compact_ids(g)[b],
            ) by {
                if b == g.len() - 1 {
                    assert(f.contains(g[a]));
                    let k = choose|k: int| 0 <= k < rest.len() && rest[k] == g[a];
                    assert(compact_ids(recs)[k] == g[a].name.compact@);
                    assert(compact_ids(recs)[recs.len() - 1] == g[b].name.compact@);
                } else {
                    assert(compact_ids(f)[a] == compact_ids(g)[a]);
                    assert(compact_ids(f)[b] == compact_ids(g)[b]);
                }
            }
        }
    }
}

/// The minimum capabilities of a group are the greatest lower bound of its members'
/// capabilities: below each of them, and above every record that is below all of them
pub proof fn lemma_meet_all_greatest_lower_bound(recs: Seq<LabelledTermCap>, c: TermCap)
    requires
        recs.len() > 0,
    ensures
        forall|i: int| 0 <= i < recs.len() ==> meet_all(recs).below(#[trigger] recs[i].caps),
        (forall|i: int| 0 <= i < recs.len() ==> c.below(#[trigger] recs[i].caps)) ==> c.below(meet_all(recs)),
    decreases recs.len(),
{
    if recs.len() == 1 {
        lemma_meet_idempotent(recs[0].caps);
        lemma_meet_lower_bound(recs[0].caps, recs[0].caps);
    } else {
        let rest = recs.drop_last();
        let m = meet_all(rest);
        let last = recs.last().caps;
        lemma_meet_all_greatest_lower_bound(rest, c);
        lemma_meet_lower_bound(m, last);
        assert forall|i: int| 0 <= i < recs.len() implies meet_all(recs).below(#[trigger] recs[i].caps) by {
            if i < recs.len() - 1 {
                assert(rest[i] == recs[i]);
                lemma_below_transitive(m.meet(last), m, recs[i].caps);
            }
        }
        if forall|i: int| 0 <= i < recs.len() ==> c.below(#[trigger] recs[i].caps) {
            assert forall|i: int| 0 <= i < rest.len() implies c.below(#[trigger] rest[i].caps) by {
                assert(rest[i] == recs[i]);
            }
            assert(c.below(recs[recs.len() - 1].caps));
            lemma_meet_greatest(c, m, last);
        }
    }
}

} // verus!

//! The records that the tables show, one type for each kind of resource.
//!
//! A record is modelled by its cells: the text of each column, in the order in
//! which the table shows them. The name is always the first cell.

use itertools::Itertools;
use std::cmp::Ordering;
use vstd::prelude::*;

verus! {

/// The kinds of resource, in drill-down order.
#[derive(Clone, Copy, Debug, PartialEq, Eq, Structural)]
pub enum ResourceKind {
    ReplicaSet,
    Pod,
    Container,
}

impl ResourceKind {
    /// The kind that a drill-down from this kind leads to; containers have none.
    pub open spec fn spec_child(self) -> Option<ResourceKind> {
        match self {
            ResourceKind::ReplicaSet => Some(ResourceKind::Pod),
            ResourceKind::Pod => Some(ResourceKind::Container),
            ResourceKind::Container => None,
        }
    }

    /// The kind that a drill-down from this kind leads to; containers have none.
    #[verifier::when_used_as_spec(spec_child)]
    pub fn child(self) -> (next: Option<ResourceKind>)
        ensures
            next == self.spec_child(),
        no_unwind
    {
        match self {
            ResourceKind::ReplicaSet => Some(ResourceKind::Pod),
            ResourceKind::Pod => Some(ResourceKind::Container),
            ResourceKind::Container => None,
        }
    }

    /// How many drill-downs lead from the top of the hierarchy to this kind.
    pub open spec fn depth(self) -> nat {
        match self {
            ResourceKind::ReplicaSet => 0,
            ResourceKind::Pod => 1,
            ResourceKind::Container => 2,
        }
    }

    /// How many columns a table of this kind has.
    pub open spec fn column_count(self) -> nat {
        match self {
            ResourceKind::ReplicaSet => 5,
            ResourceKind::Pod => 4,
            ResourceKind::Container => 2,
        }
    }
}

/// Whether each of `rows` has one cell for every column of a table of kind
/// `kind`.
pub open spec fn has_columns(rows: Seq<Seq<Seq<char>>>, kind: ResourceKind) -> bool {
    forall|i: int| 0 <= i < rows.len() ==> (#[trigger] rows[i]).len() == kind.column_count()
}

/// The records `items` as rows of cells.
pub open spec fn row_views<T: View<V = Seq<Seq<char>>>>(items: Seq<T>) -> Seq<Seq<Seq<char>>> {
    Seq::new(items.len(), |i: int| items[i]@)
}

/// One container of a pod.
#[derive(Clone, Debug)]
pub struct Container {
    pub name: String,
    pub description: String,
}

impl View for Container {
    type V = Seq<Seq<char>>;

    open spec fn view(&self) -> Seq<Seq<char>> {
        seq![self.name@, self.description@]
    }
}

impl Container {
    /// The cells of the record, in column order.
    pub fn ref_array(&self) -> (cells: [&String; 2])
        ensures
            forall|i: int| 0 <= i < 2 ==> (#[trigger] cells[i])@ == self@[i],
    {
        [&self.name, &self.description]
    }

    /// The name.
    pub fn container(&self) -> (text: &str)
        ensures
            text@ == self@[0],
    {
        self.name.as_str()
    }

    /// The description.
    pub fn description(&self) -> (text: &str)
        ensures
            text@ == self@[1],
    {
        self.description.as_str()
    }
}

/// One pod of a replica set.
#[derive(Clone, Debug)]
pub struct Pod {
    pub name: String,
    pub description: String,
    pub age: String,
    pub containers: String,
}

impl View for Pod {
    type V = Seq<Seq<char>>;

    open spec fn view(&self) -> Seq<Seq<char>> {
        seq![self.name@, self.description@, self.age@, self.containers@]
    }
}

impl Pod {
    /// The cells of the record, in column order.
    pub fn ref_array(&self) -> (cells: [&String; 4])
        ensures
            forall|i: int| 0 <= i < 4 ==> (#[trigger] cells[i])@ == self@[i],
    {
        [&self.name, &self.description, &self.age, &self.containers]
    }

    /// The name.
    pub fn podname(&self) -> (text: &str)
        ensures
            text@ == self@[0],
    {
        self.name.as_str()
    }

    /// The description.
    pub fn description(&self) -> (text: &str)
        ensures
            text@ == self@[1],
    {
        self.description.as_str()
    }

    /// The age.
    pub fn age(&self) -> (text: &str)
        ensures
            text@ == self@[2],
    {
        self.age.as_str()
    }

    /// The number of containers.
    pub fn containers(&self) -> (text: &str)
        ensures
            text@ == self@[3],
    {
        self.containers.as_str()
    }
}

/// One replica set.
#[derive(Clone, Debug)]
pub struct Rs {
    pub name: String,
    pub description: String,
    pub age: String,
    pub pods: String,
    pub containers: String,
}

impl View for Rs {
    type V = Seq<Seq<char>>;

    open spec fn view(&self) -> Seq<Seq<char>> {
        seq![self.name@, self.description@, self.age@, self.pods@, self.containers@]
    }
}

impl Rs {
    /// The cells of the record, in column order.
    pub fn ref_array(&self) -> (cells: [&String; 5])
        ensures
            forall|i: int| 0 <= i < 5 ==> (#[trigger] cells[i])@ == self@[i],
    {
        [&self.name, &self.description, &self.age, &self.pods, &self.containers]
    }

    /// The name.
    pub fn replicaset(&self) -> (text: &str)
        ensures
            text@ == self@[0],
    {
        self.name.as_str()
    }

    /// The description.
    pub fn description(&self) -> (text: &str)
        ensures
            text@ == self@[1],
    {
        self.description.as_str()
    }

    /// The age.
    pub fn age(&self) -> (text: &str)
        ensures
            text@ == self@[2],
    {
        self.age.as_str()
    }

    /// The number of pods.
    pub fn pods(&self) -> (text: &str)
        ensures
            text@ == self@[3],
    {
        self.pods.as_str()
    }

    /// The number of containers.
    pub fn containers(&self) -> (text: &str)
        ensures
            text@ == self@[4],
    {
        self.containers.as_str()
    }
}

/// A set of records of one kind.
#[derive(Debug)]
pub enum Rows {
    ReplicaSet(Vec<Rs>),
    Pod(Vec<Pod>),
    Container(Vec<Container>),
}

impl View for Rows {
    type V = Seq<Seq<Seq<char>>>;

    open spec fn view(&self) -> Seq<Seq<Seq<char>>> {
        match self {
            Rows::ReplicaSet(items) => row_views(items@),
            Rows::Pod(items) => row_views(items@),
            Rows::Container(items) => row_views(items@),
        }
    }
}

impl Rows {
    /// The kind of the records.
    pub open spec fn spec_kind(&self) -> ResourceKind {
        match self {
            Rows::ReplicaSet(_) => ResourceKind::ReplicaSet,
            Rows::Pod(_) => ResourceKind::Pod,
            Rows::Container(_) => ResourceKind::Container,
        }
    }

    /// The kind of the records.
    #[verifier::when_used_as_spec(spec_kind)]
    pub fn kind(&self) -> (kind: ResourceKind)
        ensures
            kind == self.spec_kind(),
        no_unwind
    {
        match self {
            Rows::ReplicaSet(_) => ResourceKind::ReplicaSet,
            Rows::Pod(_) => ResourceKind::Pod,
            Rows::Container(_) => ResourceKind::Container,
        }
    }

    /// The number of records.
    pub fn len(&self) -> (count: usize)
        ensures
            count == self@.len(),
        no_unwind
    {
        match self {
            Rows::ReplicaSet(items) => items.len(),
            Rows::Pod(items) => items.len(),
            Rows::Container(items) => items.len(),
        }
    }

    /// No records, of kind `kind`.
    pub fn empty(kind: ResourceKind) -> (rows: Rows)
        ensures
            rows.spec_kind() == kind,
            rows@ == Seq::<Seq<Seq<char>>>::empty(),
    {
        let rows = match kind {
            ResourceKind::ReplicaSet => Rows::ReplicaSet(Vec::new()),
            ResourceKind::Pod => Rows::Pod(Vec::new()),
            ResourceKind::Container => Rows::Container(Vec::new()),
        };
        assert(rows@ =~= Seq::<Seq<Seq<char>>>::empty());
        rows
    }

    /// Every row has one cell for each column of its kind.
    pub proof fn lemma_row_lengths(&self)
        ensures
            has_columns(self@, self.spec_kind()),
    {
    }
}

/// Whether the name `a` is `b` or sorts before it. Names are compared character
/// by character, by code point, and a name sorts before those that it begins.
/// This is the order of their bytes, so upper case sorts before lower case.
pub open spec fn name_le(a: Seq<char>, b: Seq<char>) -> bool
    decreases a.len(),
{
    if a.len() == 0 {
        true
    } else if b.len() == 0 {
        false
    } else if a[0] != b[0] {
        a[0] < b[0]
    } else {
        name_le(a.skip(1), b.skip(1))
    }
}

/// Every name sorts with itself.
pub proof fn lemma_name_le_reflexive(a: Seq<char>)
    ensures
        name_le(a, a),
    decreases a.len(),
{
    if a.len() > 0 {
        lemma_name_le_reflexive(a.skip(1));
    }
}

/// Of two names, one is the other or sorts before it.
pub proof fn lemma_name_le_total(a: Seq<char>, b: Seq<char>)
    ensures
        name_le(a, b) || name_le(b, a),
    decreases a.len(),
{
    if a.len() > 0 && b.len() > 0 && a[0] == b[0] {
        lemma_name_le_total(a.skip(1), b.skip(1));
    }
}

/// Two names that sort before each other are the same name.
pub proof fn lemma_name_le_antisymmetric(a: Seq<char>, b: Seq<char>)
    requires
        name_le(a, b),
        name_le(b, a),
    ensures
        a == b,
    decreases a.len(),
{
    if a.len() > 0 {
        lemma_name_le_antisymmetric(a.skip(1), b.skip(1));
        assert(a =~= seq![a[0]] + a.skip(1));
        assert(b =~= seq![b[0]] + b.skip(1));
    } else {
        assert(a =~= b);
    }
}

/// A name that sorts before a second, which sorts before a third, sorts
/// before the third.
pub proof fn lemma_name_le_transitive(a: Seq<char>, b: Seq<char>, c: Seq<char>)
    requires
        name_le(a, b),
        name_le(b, c),
    ensures
        name_le(a, c),
    decreases a.len(),
{
    if a.len() > 0 && a[0] == b[0] && b[0] == c[0] {
        lemma_name_le_transitive(a.skip(1), b.skip(1), c.skip(1));
    }
}

/// Whether `names` are in ascending order.
pub open spec fn names_sorted(names: Seq<Seq<char>>) -> bool {
    forall|i: int, j: int| 0 <= i <= j < names.len() ==> name_le(names[i], names[j])
}

/// Whether `rows` are in ascending order of their names, the first cells.
pub open spec fn sorted_by_name(rows: Seq<Seq<Seq<char>>>) -> bool {
    forall|i: int, j: int| 0 <= i <= j < rows.len() ==> name_le(rows[i][0], rows[j][0])
}

/// The text of each of `names`.
pub open spec fn name_views(names: Seq<String>) -> Seq<Seq<char>> {
    Seq::new(names.len(), |i: int| names[i]@)
}

/// The names of `rows`: their first cells.
pub open spec fn names_of(rows: Seq<Seq<Seq<char>>>) -> Seq<Seq<char>> {
    Seq::new(rows.len(), |i: int| rows[i][0])
}

/// Whether the character `made` may stand where a pattern has `pattern`: a
/// digit for `#`, a lower-case letter for `?`, and else the same character.
pub open spec fn stands_for(made: char, pattern: char) -> bool {
    if pattern == '#' {
        '0' <= made <= '9'
    } else if pattern == '?' {
        'a' <= made <= 'z'
    } else {
        made == pattern
    }
}

/// Whether `name` is made after `pattern`: it is as long, and each of its
/// characters may stand where it stands.
pub open spec fn follows_pattern(name: Seq<char>, pattern: Seq<char>) -> bool {
    &&& name.len() == pattern.len()
    &&& forall|i: int| 0 <= i < pattern.len() ==> stands_for(#[trigger] name[i], pattern[i])
}

/// The pattern of the names of generated records of kind `kind`.
pub open spec fn spec_name_pattern(kind: ResourceKind) -> Seq<char> {
    match kind {
        ResourceKind::ReplicaSet => "replica###-??#?#?##"@,
        ResourceKind::Pod => "replica###-??#?#?##-??#?#?#"@,
        ResourceKind::Container => "???????????"@,
    }
}

/// The pattern of the names of generated records of kind `kind`. It holds no
/// `{`.
pub fn name_pattern(kind: ResourceKind) -> (pattern: &'static str)
    ensures
        pattern@ == spec_name_pattern(kind),
        !pattern@.contains('{'),
{
    proof {
        reveal_strlit("replica###-??#?#?##");
        reveal_strlit("replica###-??#?#?##-??#?#?#");
        reveal_strlit("???????????");
    }
    match kind {
        ResourceKind::ReplicaSet => "replica###-??#?#?##",
        ResourceKind::Pod => "replica###-??#?#?##-??#?#?#",
        ResourceKind::Container => "???????????",
    }
}

/// How many records are generated of kind `kind`.
pub open spec fn generated_count(kind: ResourceKind) -> nat {
    match kind {
        ResourceKind::ReplicaSet => 20,
        ResourceKind::Pod => 20,
        ResourceKind::Container => 2,
    }
}

/// How many records are generated of kind `kind`.
pub fn record_count(kind: ResourceKind) -> (count: usize)
    ensures
        count == generated_count(kind),
{
    match kind {
        ResourceKind::ReplicaSet => 20,
        ResourceKind::Pod => 20,
        ResourceKind::Container => 2,
    }
}

/// The cells that follow the name in every generated record of kind `kind`.
pub open spec fn fixed_cells(kind: ResourceKind) -> Seq<Seq<char>> {
    match kind {
        ResourceKind::ReplicaSet => seq!["Deployment"@, "200d"@, "4/4"@, "8/8"@],
        ResourceKind::Pod => seq!["Deployment Pod"@, "200d"@, "2/2"@],
        ResourceKind::Container => seq!["Pod Container"@],
    }
}

/// Whether `rows` are the records of kind `kind` that are made from `names`:
/// one row for each name, with the names that were given, each as often as it
/// was given, in ascending order of name, and after the name the fixed cells
/// of the kind.
pub open spec fn made_from(
    rows: Seq<Seq<Seq<char>>>,
    kind: ResourceKind,
    names: Seq<Seq<char>>,
) -> bool {
    &&& rows.len() == names.len()
    &&& names_of(rows).to_multiset() == names.to_multiset()
    &&& sorted_by_name(rows)
    &&& forall|i: int| 0 <= i < rows.len() ==> (#[trigger] rows[i]).skip(1) == fixed_cells(kind)
}

/// Whether `rows` can be what the generator supplies for kind `kind`: as many
/// rows as are generated of the kind, in ascending order of name, each with a
/// name made after the pattern of the kind and with the fixed cells of the
/// kind.
pub open spec fn supplied(kind: ResourceKind, rows: Seq<Seq<Seq<char>>>) -> bool {
    &&& rows.len() == generated_count(kind)
    &&& sorted_by_name(rows)
    &&& forall|i: int|
        0 <= i < rows.len() ==> follows_pattern((#[trigger] rows[i])[0], spec_name_pattern(kind))
            && rows[i].skip(1) == fixed_cells(kind)
}

/// Names that are the names of a sequence, each as often, are made after a
/// pattern if those of the sequence are.
pub proof fn lemma_same_names_follow_pattern(
    kept: Seq<Seq<char>>,
    drawn: Seq<Seq<char>>,
    pattern: Seq<char>,
)
    requires
        kept.to_multiset() == drawn.to_multiset(),
        forall|i: int| 0 <= i < drawn.len() ==> follows_pattern(#[trigger] drawn[i], pattern),
    ensures
        forall|i: int| 0 <= i < kept.len() ==> follows_pattern(#[trigger] kept[i], pattern),
{
    kept.to_multiset_ensures();
    drawn.to_multiset_ensures();
    assert forall|i: int| 0 <= i < kept.len() implies follows_pattern(#[trigger] kept[i], pattern) by {
        assert(kept.contains(kept[i]));
        assert(kept.to_multiset().count(kept[i]) > 0);
        assert(drawn.to_multiset().count(kept[i]) > 0);
        assert(drawn.contains(kept[i]));
        let j = choose|j: int| 0 <= j < drawn.len() && drawn[j] == kept[i];
        assert(follows_pattern(drawn[j], pattern));
    }
}

/// Calls `generator::generate` of the crate fakeit, which puts a random digit
/// in place of each `#` of the pattern and a random letter in place of each
/// `?`, and leaves the other characters alone.
/// Trusted: the result is made after the pattern, character by character.
/// Which digits and letters it holds differs from call to call. A pattern with
/// a `{` is left out: the generator reads it as the start of a tag and fails on
/// one that is not closed in order.
#[verifier::external_body]
fn fake_name(pattern: &str) -> (name: String)
    requires
        !pattern@.contains('{'),
    ensures
        follows_pattern(name@, pattern@),
{
    fakeit::generator::generate(pattern.to_string())
}

/// How the name `a` stands to the name `b`: equal if they are the same text,
/// less if `a` sorts before `b`, greater if it sorts after it.
pub open spec fn order_of(a: Seq<char>, b: Seq<char>) -> Ordering {
    if a == b {
        Ordering::Equal
    } else if name_le(a, b) {
        Ordering::Less
    } else {
        Ordering::Greater
    }
}

/// Calls `str::cmp` of the standard library, which orders strings by their
/// bytes.
/// Trusted: the result is how `a` stands to `b` in the order of names.
#[verifier::external_body]
fn str_order(a: &str, b: &str) -> (order: Ordering)
    ensures
        order == order_of(a@, b@),
{
    a.cmp(b)
}

/// How the name `a` stands to the name `b`.
fn name_order(a: &String, b: &String) -> (order: Ordering)
    ensures
        order == order_of(a@, b@),
{
    str_order(a.as_str(), b.as_str())
}

/// Calls `sorted_by` of the crate itertools with `name_order` to compare two
/// names, and collects the result with `collect_vec`.
/// Trusted: the result holds the names that went in, each of them once for
/// every time it went in, and is in ascending order.
#[verifier::external_body]
fn sort_names(names: Vec<String>) -> (sorted: Vec<String>)
    ensures
        name_views(sorted@).to_multiset() == name_views(names@).to_multiset(),
        names_sorted(name_views(sorted@)),
{
    names.into_iter().sorted_by(|a, b| name_order(a, b)).collect_vec()
}

/// `count` names, each drawn at random after `pattern`.
fn draw_names(pattern: &str, count: usize) -> (names: Vec<String>)
    requires
        !pattern@.contains('{'),
    ensures
        names@.len() == count,
        forall|i: int|
            0 <= i < names@.len() ==> follows_pattern(#[trigger] name_views(names@)[i], pattern@),
{
    let mut names: Vec<String> = Vec::new();
    let mut i: usize = 0;
    while i < count
        invariant
            i <= count,
            names@.len() == i,
            !pattern@.contains('{'),
            forall|j: int|
                0 <= j < names@.len() ==> follows_pattern(#[trigger] name_views(names@)[j], pattern@),
        decreases count - i,
    {
        let ghost before = name_views(names@);
        let name = fake_name(pattern);
        names.push(name);
        i += 1;
        assert forall|j: int| 0 <= j < names@.len() implies follows_pattern(
            #[trigger] name_views(names@)[j],
            pattern@,
        ) by {
            if j < before.len() {
                assert(name_views(names@)[j] == before[j]);
            }
        }
    }
    names
}

/// The containers with the names `names`, one for each name, in ascending
/// order of name.
pub fn container_recs_from_names(names: Vec<String>) -> (recs: Vec<Container>)
    ensures
        made_from(row_views(recs@), ResourceKind::Container, name_views(names@)),
        forall|i: int|
            0 <= i < recs@.len() ==> (#[trigger] recs@[i]).description@ == "Pod Container"@,
{
    let sorted = sort_names(names);
    proof {
        name_views(names@).to_multiset_ensures();
        name_views(sorted@).to_multiset_ensures();
    }
    let mut recs: Vec<Container> = Vec::new();
    let mut i: usize = 0;
    while i < sorted.len()
        invariant
            i <= sorted.len(),
            recs@.len() == i,
            forall|j: int| 0 <= j < i ==> (#[trigger] recs@[j]).name@ == sorted@[j]@,
            forall|j: int| 0 <= j < i ==> (#[trigger] recs@[j]).description@ == "Pod Container"@,
        decreases sorted.len() - i,
    {
        recs.push(Container { name: sorted[i].clone(), description: "Pod Container".to_string() });
        i += 1;
    }
    proof {
        let rows = row_views(recs@);
        assert(names_of(rows) =~= name_views(sorted@));
        assert forall|a: int, b: int| 0 <= a <= b < rows.len() implies name_le(rows[a][0], rows[b][0]) by {
            assert(name_le(name_views(sorted@)[a], name_views(sorted@)[b]));
        }
        assert forall|j: int| 0 <= j < rows.len() implies (#[trigger] rows[j]).skip(1) == fixed_cells(
            ResourceKind::Container,
        ) by {
            assert(recs@[j].description@ == "Pod Container"@);
            assert(rows[j].skip(1) =~= fixed_cells(ResourceKind::Container));
        }
    }
    recs
}

/// The pods with the names `names`, one for each name, in ascending order of
/// name.
pub fn pod_recs_from_names(names: Vec<String>) -> (recs: Vec<Pod>)
    ensures
        made_from(row_views(recs@), ResourceKind::Pod, name_views(names@)),
        forall|i: int|
            0 <= i < recs@.len() ==> {
                &&& (#[trigger] recs@[i]).description@ == "Deployment Pod"@
                &&& recs@[i].age@ == "200d"@
                &&& recs@[i].containers@ == "2/2"@
            },
{
    let sorted = sort_names(names);
    proof {
        name_views(names@).to_multiset_ensures();
        name_views(sorted@).to_multiset_ensures();
    }
    let mut recs: Vec<Pod> = Vec::new();
    let mut i: usize = 0;
    while i < sorted.len()
        invariant
            i <= sorted.len(),
            recs@.len() == i,
            forall|j: int| 0 <= j < i ==> (#[trigger] recs@[j]).name@ == sorted@[j]@,
            forall|j: int|
                0 <= j < i ==> {
                    &&& (#[trigger] recs@[j]).description@ == "Deployment Pod"@
                    &&& recs@[j].age@ == "200d"@
                    &&& recs@[j].containers@ == "2/2"@
                },
        decreases sorted.len() - i,
    {
        recs.push(
            Pod {
                name: sorted[i].clone(),
                description: "Deployment Pod".to_string(),
                age: "200d".to_string(),
                containers: "2/2".to_string(),
            },
        );
        i += 1;
    }
    proof {
        let rows = row_views(recs@);
        assert(names_of(rows) =~= name_views(sorted@));
        assert forall|a: int, b: int| 0 <= a <= b < rows.len() implies name_le(rows[a][0], rows[b][0]) by {
            assert(name_le(name_views(sorted@)[a], name_views(sorted@)[b]));
        }
        assert forall|j: int| 0 <= j < rows.len() implies (#[trigger] rows[j]).skip(1) == fixed_cells(
            ResourceKind::Pod,
        ) by {
            assert(recs@[j].description@ == "Deployment Pod"@);
            assert(rows[j].skip(1) =~= fixed_cells(ResourceKind::Pod));
        }
    }
    recs
}

/// The replica sets with the names `names`, one for each name, in ascending
/// order of name.
pub fn rs_recs_from_names(names: Vec<String>) -> (recs: Vec<Rs>)
    ensures
        made_from(row_views(recs@), ResourceKind::ReplicaSet, name_views(names@)),
        forall|i: int|
            0 <= i < recs@.len() ==> {
                &&& (#[trigger] recs@[i]).description@ == "Deployment"@
                &&& recs@[i].age@ == "200d"@
                &&& recs@[i].pods@ == "4/4"@
                &&& recs@[i].containers@ == "8/8"@
            },
{
    let sorted = sort_names(names);
    proof {
        name_views(names@).to_multiset_ensures();
        name_views(sorted@).to_multiset_ensures();
    }
    let mut recs: Vec<Rs> = Vec::new();
    let mut i: usize = 0;
    while i < sorted.len()
        invariant
            i <= sorted.len(),
            recs@.len() == i,
            forall|j: int| 0 <= j < i ==> (#[trigger] recs@[j]).name@ == sorted@[j]@,
            forall|j: int|
                0 <= j < i ==> {
                    &&& (#[trigger] recs@[j]).description@ == "Deployment"@
                    &&& recs@[j].age@ == "200d"@
                    &&& recs@[j].pods@ == "4/4"@
                    &&& recs@[j].containers@ == "8/8"@
                },
        decreases sorted.len() - i,
    {
        recs.push(
            Rs {
                name: sorted[i].clone(),
                description: "Deployment".to_string(),
                age: "200d".to_string(),
                pods: "4/4".to_string(),
                containers: "8/8".to_string(),
            },
        );
        i += 1;
    }
    proof {
        let rows = row_views(recs@);
        assert(names_of(rows) =~= name_views(sorted@));
        assert forall|a: int, b: int| 0 <= a <= b < rows.len() implies name_le(rows[a][0], rows[b][0]) by {
            assert(name_le(name_views(sorted@)[a], name_views(sorted@)[b]));
        }
        assert forall|j: int| 0 <= j < rows.len() implies (#[trigger] rows[j]).skip(1) == fixed_cells(
            ResourceKind::ReplicaSet,
        ) by {
            assert(recs@[j].description@ == "Deployment"@);
            assert(rows[j].skip(1) =~= fixed_cells(ResourceKind::ReplicaSet));
        }
    }
    recs
}

/// The rows made from names that follow the pattern of a kind, as many as are
/// generated of the kind, are rows that the generator can supply.
pub proof fn lemma_made_from_drawn_is_supplied(
    rows: Seq<Seq<Seq<char>>>,
    kind: ResourceKind,
    names: Seq<Seq<char>>,
)
    requires
        made_from(rows, kind, names),
        names.len() == generated_count(kind),
        forall|i: int|
            0 <= i < names.len() ==> follows_pattern(#[trigger] names[i], spec_name_pattern(kind)),
    ensures
        supplied(kind, rows),
{
    lemma_same_names_follow_pattern(names_of(rows), names, spec_name_pattern(kind));
    assert forall|i: int| 0 <= i < rows.len() implies follows_pattern(
        (#[trigger] rows[i])[0],
        spec_name_pattern(kind),
    ) by {
        assert(names_of(rows)[i] == rows[i][0]);
    }
}

/// Two containers with names drawn at random after the pattern of their kind,
/// in ascending order of name.
pub fn generate_container_recs() -> (recs: Vec<Container>)
    ensures
        supplied(ResourceKind::Container, row_views(recs@)),
        forall|i: int|
            0 <= i < recs@.len() ==> (#[trigger] recs@[i]).description@ == "Pod Container"@,
{
    let names = draw_names(
        name_pattern(ResourceKind::Container),
        record_count(ResourceKind::Container),
    );
    let ghost drawn = name_views(names@);
    let recs = container_recs_from_names(names);
    proof {
        lemma_made_from_drawn_is_supplied(row_views(recs@), ResourceKind::Container, drawn);
    }
    recs
}

/// Twenty pods with names drawn at random after the pattern of their kind, in
/// ascending order of name.
pub fn generate_pod_recs() -> (recs: Vec<Pod>)
    ensures
        supplied(ResourceKind::Pod, row_views(recs@)),
        forall|i: int|
            0 <= i < recs@.len() ==> {
                &&& (#[trigger] recs@[i]).description@ == "Deployment Pod"@
                &&& recs@[i].age@ == "200d"@
                &&& recs@[i].containers@ == "2/2"@
            },
{
    let names = draw_names(name_pattern(ResourceKind::Pod), record_count(ResourceKind::Pod));
    let ghost drawn = name_views(names@);
    let recs = pod_recs_from_names(names);
    proof {
        lemma_made_from_drawn_is_supplied(row_views(recs@), ResourceKind::Pod, drawn);
    }
    recs
}

/// Twenty replica sets with names drawn at random after the pattern of their
/// kind, in ascending order of name.
pub fn generate_rs_recs() -> (recs: Vec<Rs>)
    ensures
        supplied(ResourceKind::ReplicaSet, row_views(recs@)),
        forall|i: int|
            0 <= i < recs@.len() ==> {
                &&& (#[trigger] recs@[i]).description@ == "Deployment"@
                &&& recs@[i].age@ == "200d"@
                &&& recs@[i].pods@ == "4/4"@
                &&& recs@[i].containers@ == "8/8"@
            },
{
    let names = draw_names(
        name_pattern(ResourceKind::ReplicaSet),
        record_count(ResourceKind::ReplicaSet),
    );
    let ghost drawn = name_views(names@);
    let recs = rs_recs_from_names(names);
    proof {
        lemma_made_from_drawn_is_supplied(row_views(recs@), ResourceKind::ReplicaSet, drawn);
    }
    recs
}

/// A fresh set of records of kind `kind`, with names drawn at random after
/// the pattern of the kind, in ascending order of name.
pub fn generate(kind: ResourceKind) -> (rows: Rows)
    ensures
        rows.spec_kind() == kind,
        supplied(kind, rows@),
{
    match kind {
        ResourceKind::ReplicaSet => Rows::ReplicaSet(generate_rs_recs()),
        ResourceKind::Pod => Rows::Pod(generate_pod_recs()),
        ResourceKind::Container => Rows::Container(generate_container_recs()),
    }
}

} // verus!

//! The merge of per-client verbosity settings of a declarative test file into a
//! single map: each component gets the most verbose level any client asks for.

use vstd::prelude::*;

use crate::level::{more_verbose, verbosity, TracingOrLogLevel};
use crate::level_map::{merge_levels, LevelMap};
use crate::text::same_text;

verus! {

/// A client entity of a test file, with the levels it observes per component.
pub struct ClientEntity {
    pub observe_log_messages: Option<LevelMap>,
}

/// An entity that a test file creates.
pub enum TestFileEntity {
    Client(ClientEntity),
    /// Any entity that is not a client (database, collection, session, ...).
    Other,
}

/// One operation of a test, with the entities it creates when it is a
/// `createEntities` operation.
pub struct Operation {
    pub name: String,
    pub created_entities: Vec<TestFileEntity>,
}

/// One test of a test file.
pub struct TestCase {
    pub operations: Vec<Operation>,
}

/// A declarative test file.
pub struct TestFile {
    pub tests: Vec<TestCase>,
    pub create_entities: Option<Vec<TestFileEntity>>,
}

/// The levels an entity asks to observe: those of a client, none otherwise.
pub open spec fn entity_levels(e: TestFileEntity) -> Map<Seq<char>, TracingOrLogLevel> {
    match e {
        TestFileEntity::Client(c) => match c.observe_log_messages {
            Some(m) => m@,
            None => Map::empty(),
        },
        TestFileEntity::Other => Map::empty(),
    }
}

/// The entities created by a sequence of operations, in order; only
/// `createEntities` operations count.
pub open spec fn operations_entities(ops: Seq<Operation>) -> Seq<TestFileEntity>
    decreases ops.len(),
{
    if ops.len() == 0 {
        Seq::empty()
    } else {
        operations_entities(ops.drop_last()) + if ops.last().name@ == "createEntities"@ {
            ops.last().created_entities@
        } else {
            Seq::empty()
        }
    }
}

/// The entities created by the operations of a sequence of tests, in order.
pub open spec fn tests_entities(tests: Seq<TestCase>) -> Seq<TestFileEntity>
    decreases tests.len(),
{
    if tests.len() == 0 {
        Seq::empty()
    } else {
        tests_entities(tests.drop_last()) + operations_entities(tests.last().operations@)
    }
}

/// Every entity of a test file in traversal order: those of each test's
/// `createEntities` operations, then the file's own.
pub open spec fn file_entities(f: TestFile) -> Seq<TestFileEntity> {
    tests_entities(f.tests@) + match f.create_entities {
        Some(es) => es@,
        None => Seq::empty(),
    }
}

/// `acc` merged with the levels of each entity of `es`, in order.
pub open spec fn merge_all(
    acc: Map<Seq<char>, TracingOrLogLevel>,
    es: Seq<TestFileEntity>,
) -> Map<Seq<char>, TracingOrLogLevel>
    decreases es.len(),
{
    if es.len() == 0 {
        acc
    } else {
        merge_all(merge_levels(acc, entity_levels(es[0])), es.drop_first())
    }
}

/// The merged levels of a test file.
pub open spec fn merged_levels_of(f: TestFile) -> Map<Seq<char>, TracingOrLogLevel> {
    merge_all(Map::empty(), file_entities(f))
}

proof fn lemma_merge_all_append(
    acc: Map<Seq<char>, TracingOrLogLevel>,
    a: Seq<TestFileEntity>,
    b: Seq<TestFileEntity>,
)
    ensures
        merge_all(acc, a + b) == merge_all(merge_all(acc, a), b),
    decreases a.len(),
{
    if a.len() == 0 {
        assert(a + b =~= b);
    } else {
        assert((a + b).drop_first() =~= a.drop_first() + b);
        lemma_merge_all_append(merge_levels(acc, entity_levels(a[0])), a.drop_first(), b);
    }
}

proof fn lemma_merge_all_one(acc: Map<Seq<char>, TracingOrLogLevel>, e: TestFileEntity)
    ensures
        merge_all(acc, seq![e]) == merge_levels(acc, entity_levels(e)),
{
    assert(seq![e].drop_first() =~= Seq::<TestFileEntity>::empty());
    assert(merge_all(merge_levels(acc, entity_levels(e)), Seq::<TestFileEntity>::empty())
        == merge_levels(acc, entity_levels(e)));
}

/// Merges the levels of the entities `es` into `merged`.
fn merge_entities(merged: &mut LevelMap, es: &Vec<TestFileEntity>)
    ensures
        final(merged)@ == merge_all(old(merged)@, es@),
{
    let mut i: usize = 0;
    while i < es.len()
        invariant
            i <= es@.len(),
            merged@ == merge_all(old(merged)@, es@.subrange(0, i as int)),
        decreases es@.len() - i,
    {
        proof {
            lemma_merge_all_append(old(merged)@, es@.subrange(0, i as int), seq![es@[i as int]]);
            lemma_merge_all_one(merged@, es@[i as int]);
            assert(es@.subrange(0, i + 1) =~= es@.subrange(0, i as int) + seq![es@[i as int]]);
        }
        match &es[i] {
            TestFileEntity::Client(client) => match &client.observe_log_messages {
                Some(levels) => merged.merge_from(levels),
                None => {
                    assert(merged@ =~= merge_levels(merged@, Map::empty()));
                },
            },
            TestFileEntity::Other => {
                assert(merged@ =~= merge_levels(merged@, Map::empty()));
            },
        }
        i = i + 1;
    }
    assert(es@.subrange(0, es@.len() as int) =~= es@);
}

/// Builds the map from component to the most verbose level that any client of
/// the test file observes. The clients visited are those created by the
/// `createEntities` operations of every test, then those of the file's own
/// entity list.
pub fn max_verbosity_levels_from_test_file(test_file: &TestFile) -> (r: LevelMap)
    ensures
        r@ == merged_levels_of(*test_file),
{
    let mut merged = LevelMap::new();
    let ghost empty = merged@;
    let mut t: usize = 0;
    while t < test_file.tests.len()
        invariant
            t <= test_file.tests@.len(),
            empty == Map::<Seq<char>, TracingOrLogLevel>::empty(),
            merged@ == merge_all(empty, tests_entities(test_file.tests@.subrange(0, t as int))),
        decreases test_file.tests@.len() - t,
    {
        let ops = &test_file.tests[t].operations;
        let ghost before = tests_entities(test_file.tests@.subrange(0, t as int));
        let mut o: usize = 0;
        while o < ops.len()
            invariant
                o <= ops@.len(),
                merged@ == merge_all(empty, before + operations_entities(ops@.subrange(0, o as int))),
            decreases ops@.len() - o,
        {
            let ghost done = before + operations_entities(ops@.subrange(0, o as int));
            proof {
                assert(ops@.subrange(0, o + 1).drop_last() =~= ops@.subrange(0, o as int));
            }
            let op = &ops[o];
            if same_text(op.name.as_str(), "createEntities") {
                merge_entities(&mut merged, &op.created_entities);
                proof {
                    lemma_merge_all_append(empty, done, op.created_entities@);
                    assert(done + op.created_entities@ =~= before + operations_entities(
                        ops@.subrange(0, o + 1),
                    ));
                }
            } else {
                proof {
                    assert(done =~= before + operations_entities(ops@.subrange(0, o + 1)));
                }
            }
            o = o + 1;
        }
        proof {
            assert(ops@.subrange(0, ops@.len() as int) =~= ops@);
            assert(test_file.tests@.subrange(0, t + 1).drop_last() =~= test_file.tests@.subrange(
                0,
                t as int,
            ));
        }
        t = t + 1;
    }
    proof {
        assert(test_file.tests@.subrange(0, test_file.tests@.len() as int) =~= test_file.tests@);
    }
    match &test_file.create_entities {
        Some(es) => {
            merge_entities(&mut merged, es);
            proof {
                lemma_merge_all_append(empty, tests_entities(test_file.tests@), es@);
            }
        },
        None => {
            assert(tests_entities(test_file.tests@) + Seq::<TestFileEntity>::empty() =~= tests_entities(
                test_file.tests@,
            ));
        },
    }
    merged
}

/// Merging is a maximum: when two clients both observe component `t`, the
/// merged map holds the more verbose of their two levels for `t`, and it holds
/// exactly the components that either client observes.
pub proof fn lemma_merge_is_max(
    first: Map<Seq<char>, TracingOrLogLevel>,
    second: Map<Seq<char>, TracingOrLogLevel>,
    t: Seq<char>,
)
    requires
        first.contains_key(t),
        second.contains_key(t),
    ensures
        merge_levels(merge_levels(Map::empty(), first), second).contains_key(t),
        merge_levels(merge_levels(Map::empty(), first), second)[t] == more_verbose(
            first[t],
            second[t],
        ),
        merge_levels(merge_levels(Map::empty(), first), second).dom() == first.dom().union(
            second.dom(),
        ),
{
    assert(merge_levels(merge_levels(Map::empty(), first), second).dom() =~= first.dom().union(
        second.dom(),
    ));
}

/// Whether some entity of `es` observes component `t`.
pub open spec fn observed_by_some(es: Seq<TestFileEntity>, t: Seq<char>) -> bool {
    exists|i: int| 0 <= i < es.len() && #[trigger] entity_levels(es[i]).contains_key(t)
}

proof fn lemma_merge_all_max(
    acc: Map<Seq<char>, TracingOrLogLevel>,
    es: Seq<TestFileEntity>,
    t: Seq<char>,
)
    ensures
        merge_all(acc, es).contains_key(t) <==> (acc.contains_key(t) || observed_by_some(es, t)),
        acc.contains_key(t) ==> verbosity(acc[t]) <= verbosity(merge_all(acc, es)[t]),
        forall|i: int|
            0 <= i < es.len() && #[trigger] entity_levels(es[i]).contains_key(t) ==> verbosity(
                entity_levels(es[i])[t],
            ) <= verbosity(merge_all(acc, es)[t]),
        merge_all(acc, es).contains_key(t) ==> (acc.contains_key(t) && merge_all(acc, es)[t]
            == acc[t]) || exists|i: int|
            0 <= i < es.len() && #[trigger] entity_levels(es[i]).contains_key(t) && entity_levels(
                es[i],
            )[t] == merge_all(acc, es)[t],
    decreases es.len(),
{
    if es.len() > 0 {
        let c = entity_levels(es[0]);
        let acc2 = merge_levels(acc, c);
        let rest = es.drop_first();
        let r = merge_all(acc, es);
        lemma_merge_all_max(acc2, rest, t);
        assert(r == merge_all(acc2, rest));
        assert(acc2.contains_key(t) <==> acc.contains_key(t) || c.contains_key(t));
        if observed_by_some(rest, t) {
            let j = choose|j: int| 0 <= j < rest.len() && #[trigger] entity_levels(rest[j]).contains_key(t);
            assert(entity_levels(es[j + 1]).contains_key(t));
        }
        if c.contains_key(t) {
            assert(entity_levels(es[0]).contains_key(t));
        }
        if observed_by_some(es, t) {
            let j = choose|j: int| 0 <= j < es.len() && #[trigger] entity_levels(es[j]).contains_key(t);
            if j > 0 {
                assert(entity_levels(rest[j - 1]).contains_key(t));
            }
        }
        assert forall|i: int|
            0 <= i < es.len() && #[trigger] entity_levels(es[i]).contains_key(t) implies verbosity(
                entity_levels(es[i])[t],
            ) <= verbosity(r[t]) by {
            if i > 0 {
                assert(rest[i - 1] == es[i]);
            }
        }
        if r.contains_key(t) {
            if acc2.contains_key(t) && r[t] == acc2[t] {
                if acc.contains_key(t) && c.contains_key(t) {
                    if verbosity(acc[t]) < verbosity(c[t]) {
                        assert(entity_levels(es[0]).contains_key(t));
                    }
                } else if c.contains_key(t) {
                    assert(entity_levels(es[0]).contains_key(t));
                }
            } else {
                let j = choose|j: int|
                    0 <= j < rest.len() && #[trigger] entity_levels(rest[j]).contains_key(t)
                        && entity_levels(rest[j])[t] == r[t];
                assert(es[j + 1] == rest[j]);
                assert(entity_levels(es[j + 1]).contains_key(t));
            }
        }
    }
}

/// Merging a whole test file takes the most verbose level: the merged map holds
/// exactly the components that some client of the file observes, the level of
/// each is at least as verbose as every client's level for it, and it is the
/// level of one of those clients.
pub proof fn lemma_file_merge_is_max(f: TestFile, t: Seq<char>)
    ensures
        merged_levels_of(f).contains_key(t) <==> observed_by_some(file_entities(f), t),
        forall|i: int|
            0 <= i < file_entities(f).len() && #[trigger] entity_levels(
                file_entities(f)[i],
            ).contains_key(t) ==> verbosity(entity_levels(file_entities(f)[i])[t]) <= verbosity(
                merged_levels_of(f)[t],
            ),
        merged_levels_of(f).contains_key(t) ==> exists|i: int|
            0 <= i < file_entities(f).len() && #[trigger] entity_levels(
                file_entities(f)[i],
            ).contains_key(t) && entity_levels(file_entities(f)[i])[t] == merged_levels_of(f)[t],
{
    lemma_merge_all_max(Map::empty(), file_entities(f), t);
}

} // verus!

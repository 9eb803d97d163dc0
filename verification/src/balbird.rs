use vstd::prelude::*;

verus! {

/// The server status that the display shows.
#[derive(Clone, Copy, Debug)]
pub struct BalbirdData {
    pub is_healthy: bool,
}

/// One database table in the server's status report.
#[derive(Debug)]
pub struct TableStatus {
    pub name: String,
    pub size_bytes: u64,
    /// Seconds since the table was last written; absent while the service is
    /// not ready.
    pub age_seconds: Option<u64>,
}

/// The table that is written only when trades occur, and so is not watched.
pub open spec fn ignored_table() -> Seq<char> {
    "transactions"@
}

/// A table whose age counts: it is not the ignored table and it reports an age.
pub open spec fn counts(t: TableStatus) -> bool {
    t.name@ != ignored_table() && t.age_seconds is Some
}

/// The largest age among the tables that count, if any counts.
pub open spec fn max_age(tables: Seq<TableStatus>) -> Option<u64>
    decreases tables.len(),
{
    if tables.len() == 0 {
        None
    } else {
        let rest = max_age(tables.drop_last());
        let t = tables.last();
        if counts(t) {
            let a = t.age_seconds.unwrap();
            match rest {
                None => Some(a),
                Some(m) => Some(if m >= a { m } else { a }),
            }
        } else {
            rest
        }
    }
}

/// The server is healthy when the oldest watched table was written less than a
/// minute ago; with no watched table reporting an age it is not.
pub open spec fn healthy(tables: Seq<TableStatus>) -> bool {
    match max_age(tables) {
        Some(a) => a < 60,
        None => false,
    }
}

/// The largest age is the largest among the watched tables (every table but
/// `transactions` that reports an age): it is `None` exactly when no table is
/// watched, and otherwise every watched age is at most it and some watched
/// table has exactly that age.
pub proof fn lemma_max_age_is_largest(tables: Seq<TableStatus>)
    ensures
        max_age(tables) is None <==> forall|i: int|
            0 <= i < tables.len() ==> !((#[trigger] tables[i]).name@ != "transactions"@
                && tables[i].age_seconds is Some),
        max_age(tables) matches Some(a) ==> (forall|i: int|
            0 <= i < tables.len() && (#[trigger] tables[i]).name@ != "transactions"@
                && tables[i].age_seconds is Some ==> tables[i].age_seconds.unwrap() <= a) && (exists|
            i: int,
        |
            0 <= i < tables.len() && (#[trigger] tables[i]).name@ != "transactions"@
                && tables[i].age_seconds == Some(a)),
    decreases tables.len(),
{
    if tables.len() > 0 {
        let rest = tables.drop_last();
        lemma_max_age_is_largest(rest);
        let n = tables.len() - 1;
        assert forall|i: int| 0 <= i < n implies #[trigger] tables[i] == rest[i] by {}
        if max_age(tables) is Some {
            let a = max_age(tables).unwrap();
            if max_age(rest) is Some && max_age(tables) == max_age(rest) {
                let i = choose|i: int|
                    0 <= i < rest.len() && (#[trigger] rest[i]).name@ != "transactions"@
                        && rest[i].age_seconds == Some(a);
                assert(tables[i] == rest[i]);
            } else {
                assert(tables[n] == tables.last());
            }
        }
    }
}

/// The server is healthy exactly when some table is watched and every watched
/// table (every table but `transactions` that reports an age) was written less
/// than 60 seconds ago.
pub proof fn lemma_healthy_when_all_fresh(tables: Seq<TableStatus>)
    ensures
        healthy(tables) <==> (exists|i: int|
            0 <= i < tables.len() && (#[trigger] tables[i]).name@ != "transactions"@
                && tables[i].age_seconds is Some) && (forall|i: int|
            0 <= i < tables.len() && (#[trigger] tables[i]).name@ != "transactions"@
                && tables[i].age_seconds is Some ==> tables[i].age_seconds.unwrap() < 60),
{
    lemma_max_age_is_largest(tables);
    if max_age(tables) is Some {
        let a = max_age(tables).unwrap();
        let i = choose|i: int|
            0 <= i < tables.len() && (#[trigger] tables[i]).name@ != "transactions"@
                && tables[i].age_seconds == Some(a);
        assert(tables[i].age_seconds is Some);
    }
}

/// The largest age among the tables other than `transactions` that report one.
pub fn max_table_age(tables: &Vec<TableStatus>) -> (age: Option<u64>)
    ensures
        age == max_age(tables@),
{
    proof {
        reveal_strlit("transactions");
    }
    let ignored = String::from_str("transactions");
    let mut best: Option<u64> = None;
    let mut i: usize = 0;
    while i < tables.len()
        invariant
            i <= tables@.len(),
            ignored@ == ignored_table(),
            best == max_age(tables@.take(i as int)),
        decreases tables@.len() - i,
    {
        let t = &tables[i];
        assert(tables@.take(i + 1).drop_last() =~= tables@.take(i as int));
        assert(tables@.take(i + 1).last() == tables@[i as int]);
        if t.name != ignored {
            match t.age_seconds {
                Some(a) => {
                    best = match best {
                        None => Some(a),
                        Some(m) => Some(if m >= a { m } else { a }),
                    };
                },
                None => {},
            }
        }
        i = i + 1;
    }
    assert(tables@.take(tables@.len() as int) =~= tables@);
    best
}

/// The server status from its table report.
pub fn balbird_status(tables: &Vec<TableStatus>) -> (data: BalbirdData)
    ensures
        data.is_healthy == healthy(tables@),
{
    let is_healthy = match max_table_age(tables) {
        Some(age) => age < 60,
        None => false,
    };
    BalbirdData { is_healthy }
}

} // verus!

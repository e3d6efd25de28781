use vstd::prelude::*;

use crate::star::StarClass;

verus! {

/// Number of rows of the population table.
pub const TABLE_ROWS: usize = 7;

/// The class of row `k` of the population table, heaviest first.
pub open spec fn table_class(k: int) -> StarClass {
    if k == 0 {
        StarClass::O
    } else if k == 1 {
        StarClass::B
    } else if k == 2 {
        StarClass::A
    } else if k == 3 {
        StarClass::F
    } else if k == 4 {
        StarClass::G
    } else if k == 5 {
        StarClass::K
    } else {
        StarClass::M
    }
}

/// Share of the population, in thousandths, of the class in row `k`.
pub open spec fn table_ratio(k: int) -> int {
    if k == 0 {
        1
    } else if k == 1 {
        1
    } else if k == 2 {
        5
    } else if k == 3 {
        30
    } else if k == 4 {
        70
    } else if k == 5 {
        100
    } else {
        700
    }
}

/// `n` times the row's ratio, rounded to the nearest integer (halves up).
pub open spec fn class_count(n: int, k: int) -> int {
    (n * table_ratio(k) + 500) / 1000
}

/// The classes requested by a population of `n`, from row `k` of the table
/// on: each class repeated as often as its count, in table order.
pub open spec fn plan_from(n: int, k: int) -> Seq<StarClass>
    decreases TABLE_ROWS - k,
{
    if k < 0 || k >= TABLE_ROWS {
        Seq::empty()
    } else {
        Seq::new(class_count(n, k) as nat, |j: int| table_class(k)) + plan_from(n, k + 1)
    }
}

/// The classes requested by a population of `n`, in generation order.
pub open spec fn plan(n: int) -> Seq<StarClass> {
    plan_from(n, 0)
}

/// Sum of the rounded counts from row `k` on.
pub open spec fn count_from(n: int, k: int) -> int
    decreases TABLE_ROWS - k,
{
    if k < 0 || k >= TABLE_ROWS {
        0
    } else {
        class_count(n, k) + count_from(n, k + 1)
    }
}

/// Row `k` of the population table: its class and its ratio in thousandths.
pub fn table_row(k: usize) -> (r: (StarClass, u32))
    requires
        k < TABLE_ROWS,
    ensures
        r.0 == table_class(k as int),
        r.1 as int == table_ratio(k as int),
{
    match k {
        0 => (StarClass::O, 1),
        1 => (StarClass::B, 1),
        2 => (StarClass::A, 5),
        3 => (StarClass::F, 30),
        4 => (StarClass::G, 70),
        5 => (StarClass::K, 100),
        _ => (StarClass::M, 700),
    }
}

/// How many stars of row `k`'s class a population of `stars_count` holds.
pub fn count_for_row(stars_count: u32, k: usize) -> (r: u32)
    requires
        k < TABLE_ROWS,
    ensures
        r as int == class_count(stars_count as int, k as int),
{
    let (_, ratio) = table_row(k);
    let n = stars_count as u64;
    assert(n * (ratio as u64) <= 700 * 0xffff_ffff) by (nonlinear_arith)
        requires
            n <= 0xffff_ffff,
            ratio <= 700,
    ;
    let c = (n * (ratio as u64) + 500) / 1000;
    assert(c <= 0xffff_ffff);
    c as u32
}

/// The population table's classes, its counts: no row requests a white dwarf,
/// and the plan holds exactly the sum of the rounded counts.
pub proof fn lemma_plan_population(n: int)
    requires
        n >= 0,
    ensures
        plan(n).len() == count_from(n, 0),
        forall|i: int| 0 <= i < plan(n).len() ==> #[trigger] plan(n)[i] != StarClass::WhiteDwarf,
{
    lemma_plan_from(n, 0);
}

pub(crate) proof fn lemma_plan_from(n: int, k: int)
    requires
        n >= 0,
        0 <= k,
    ensures
        plan_from(n, k).len() == count_from(n, k),
        forall|i: int|
            0 <= i < plan_from(n, k).len() ==> #[trigger] plan_from(n, k)[i] != StarClass::WhiteDwarf,
    decreases TABLE_ROWS - k,
{
    if k < TABLE_ROWS {
        lemma_plan_from(n, k + 1);
        assert(class_count(n, k) >= 0) by (nonlinear_arith)
            requires
                n >= 0,
                table_ratio(k) >= 0,
                class_count(n, k) == (n * table_ratio(k) + 500) / 1000,
        ;
        let head = Seq::new(class_count(n, k) as nat, |j: int| table_class(k));
        assert forall|i: int| 0 <= i < plan_from(n, k).len() implies #[trigger] plan_from(
            n,
            k,
        )[i] != StarClass::WhiteDwarf by {
            if i >= head.len() {
                assert(plan_from(n, k)[i] == plan_from(n, k + 1)[i - head.len()]);
            }
        }
    }
}

/// A requested population of ten thousand yields nine thousand and seventy
/// stars.
pub proof fn lemma_ten_thousand()
    ensures
        plan(10_000).len() == 9_070,
{
    lemma_plan_population(10_000);
    reveal_with_fuel(count_from, 8);
}

} // verus!

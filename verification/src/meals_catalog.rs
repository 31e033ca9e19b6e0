//! The meal catalog: read-only reference data mapping a meal identifier to
//! its name and its expected cooking duration.
//!
//! The catalog is built once at startup and never mutated afterwards; every
//! lookup is answered from the in-memory table.

use vstd::prelude::*;

verus! {

use crate::order::MealId;

/// Longest cooking duration (in seconds) a well-formed catalog may hold.
/// Bounding the durations keeps the arithmetic on ready-at timestamps far
/// away from the edges of `i64`.
pub const MAX_COOKING_SECONDS: i64 = 86_400;

/// One catalog entry: a meal's identifier, display name, and how long it
/// takes to cook, in seconds.
#[derive(Debug, Clone)]
pub struct MealInfo {
    pub id: MealId,
    pub name: String,
    pub cooking_time: i64,
}

impl MealInfo {
    /// Builds one catalog entry from its parts.
    pub fn new(id: MealId, name: &str, cooking_time: i64) -> (r: MealInfo)
        ensures
            r.id == id,
            r.name@ == name@,
            r.cooking_time == cooking_time,
    {
        MealInfo { id, name: String::from_str(name), cooking_time }
    }
}

/// The fixed table of meals the restaurant offers.
pub struct MealCatalog {
    meals: Vec<MealInfo>,
}

impl View for MealCatalog {
    type V = Seq<MealInfo>;

    closed spec fn view(&self) -> Seq<MealInfo> {
        self.meals@
    }
}

/// The first entry of `s` whose identifier is `meal_id`, if any.
pub open spec fn catalog_lookup(s: Seq<MealInfo>, meal_id: MealId) -> Option<MealInfo>
    decreases s.len(),
{
    if s.len() == 0 {
        None
    } else if s[0].id == meal_id {
        Some(s[0])
    } else {
        catalog_lookup(s.drop_first(), meal_id)
    }
}

/// A skipped prefix without a matching identifier does not change the
/// result of a catalog lookup.
proof fn lemma_lookup_skip(s: Seq<MealInfo>, meal_id: MealId, i: int)
    requires
        0 <= i <= s.len(),
        forall|j: int| 0 <= j < i ==> s[j].id != meal_id,
    ensures
        catalog_lookup(s, meal_id) == catalog_lookup(s.skip(i), meal_id),
    decreases i,
{
    if i > 0 {
        assert(s.skip(1).skip(i - 1) =~= s.skip(i));
        lemma_lookup_skip(s.skip(1), meal_id, i - 1);
        assert(s.drop_first() =~= s.skip(1));
    } else {
        assert(s.skip(0) =~= s);
    }
}

/// A lookup owes the entry at `i` whenever it carries the identifier and
/// no earlier entry does.
pub proof fn lemma_lookup_found(s: Seq<MealInfo>, meal_id: MealId, i: int)
    requires
        0 <= i < s.len(),
        s[i].id == meal_id,
        forall|j: int| 0 <= j < i ==> s[j].id != meal_id,
    ensures
        catalog_lookup(s, meal_id) == Some(s[i]),
    decreases i,
{
    if i > 0 {
        lemma_lookup_found(s.drop_first(), meal_id, i - 1);
        assert(s.drop_first()[i - 1] == s[i]);
    }
}

/// A meal a lookup found is one of the catalog's entries.
pub proof fn lemma_lookup_membership(s: Seq<MealInfo>, meal_id: MealId)
    requires
        catalog_lookup(s, meal_id) is Some,
    ensures
        exists|i: int| 0 <= i < s.len() && #[trigger] s[i] == catalog_lookup(s, meal_id).unwrap(),
    decreases s.len(),
{
    if s.len() > 0 && s[0].id != meal_id {
        lemma_lookup_membership(s.drop_first(), meal_id);
        let i = choose|i: int|
            0 <= i < s.drop_first().len() && #[trigger] s.drop_first()[i] == catalog_lookup(
                s.drop_first(),
                meal_id,
            ).unwrap();
        assert(s[i + 1] == s.drop_first()[i]);
    }
}

impl MealCatalog {
    /// A catalog is well formed when its identifiers are unique and every
    /// cooking duration is positive and bounded.
    pub open spec fn wf(self) -> bool {
        &&& forall|i: int, j: int|
            0 <= i < j < self@.len() ==> self@[i].id != self@[j].id
        &&& forall|i: int|
            0 <= i < self@.len() ==> 0 < #[trigger] self@[i].cooking_time <= MAX_COOKING_SECONDS
    }

    /// An empty catalog.
    pub fn empty() -> (r: Self)
        ensures
            r@ =~= Seq::<MealInfo>::empty(),
            r.wf(),
    {
        MealCatalog { meals: Vec::new() }
    }

    /// Appends one meal to the catalog, builder style.
    pub fn add(self, meal: MealInfo) -> (r: Self)
        ensures
            r@ =~= self@.push(meal),
    {
        let mut s = self;
        s.meals.push(meal);
        s
    }

    /// Looks a meal up by its identifier; answers the first entry that
    /// carries it, or nothing when the identifier is unknown.
    pub fn get(&self, meal_id: MealId) -> (r: Option<&MealInfo>)
        ensures
            match r {
                Some(m) => catalog_lookup(self@, meal_id) == Some(*m) && m.id == meal_id,
                None => catalog_lookup(self@, meal_id) is None,
            },
    {
        let n = self.meals.len();
        let mut i: usize = 0;
        while i < n
            invariant
                n == self.meals.len(),
                0 <= i <= n,
                self@ == self.meals@,
                forall|j: int| 0 <= j < i ==> self@[j].id != meal_id,
            decreases n - i,
        {
            if self.meals[i].id == meal_id {
                proof {
                    lemma_lookup_skip(self@, meal_id, i as int);
                    assert(self@.skip(i as int)[0] == self@[i as int]);
                }
                return Some(&self.meals[i]);
            }
            i = i + 1;
        }
        proof {
            lemma_lookup_skip(self@, meal_id, n as int);
            assert(self@.skip(n as int) =~= Seq::<MealInfo>::empty());
        }
        None
    }

    /// In a well-formed catalog, a found meal obeys the catalog's bounds
    /// on cooking durations.
    pub proof fn lemma_lookup_wf_bounds(self, meal_id: MealId)
        requires
            self.wf(),
            catalog_lookup(self@, meal_id) is Some,
        ensures
            0 < catalog_lookup(self@, meal_id).unwrap().cooking_time <= MAX_COOKING_SECONDS,
    {
        lemma_lookup_membership(self@, meal_id);
        let i = choose|i: int|
            0 <= i < self@.len() && #[trigger] self@[i] == catalog_lookup(self@, meal_id).unwrap();
        assert(0 < self@[i].cooking_time <= MAX_COOKING_SECONDS);
    }

    /// Decides well-formedness at run time, for callers outside the
    /// verified world that must test it before relying on it.
    pub fn is_well_formed(&self) -> (r: bool)
        ensures
            r == self.wf(),
    {
        let n = self.meals.len();
        let mut i: usize = 0;
        while i < n
            invariant
                n == self.meals.len(),
                self@ == self.meals@,
                0 <= i <= n,
                forall|a: int|
                    0 <= a < i ==> 0 < #[trigger] self@[a].cooking_time <= MAX_COOKING_SECONDS,
            decreases n - i,
        {
            let ct = self.meals[i].cooking_time;
            if ct <= 0 || ct > MAX_COOKING_SECONDS {
                return false;
            }
            i = i + 1;
        }
        let mut a: usize = 0;
        while a < n
            invariant
                n == self.meals.len(),
                self@ == self.meals@,
                0 <= a <= n,
                forall|x: int|
                    0 <= x < n ==> 0 < #[trigger] self@[x].cooking_time <= MAX_COOKING_SECONDS,
                forall|x: int, y: int| 0 <= x < y < n && x < a ==> self@[x].id != self@[y].id,
            decreases n - a,
        {
            let mut b: usize = a + 1;
            while b < n
                invariant
                    n == self.meals.len(),
                    self@ == self.meals@,
                    a < n,
                    a + 1 <= b <= n,
                    forall|y: int| a < y < b ==> self@[a as int].id != self@[y].id,
                decreases n - b,
            {
                if self.meals[a].id == self.meals[b].id {
                    return false;
                }
                b = b + 1;
            }
            a = a + 1;
        }
        true
    }

    /// The menu the restaurant starts with.
    pub fn standard() -> (r: Self)
        ensures
            r.wf(),
            r@.len() == 6,
            forall|i: int| 0 <= i < 6 ==> (#[trigger] r@[i].id) == i,
            forall|i: int| 0 <= i < 6 ==> (#[trigger] r@[i].cooking_time) == 60 * (i + 1),
            r@[0].name@ == "Green Tea"@,
            r@[1].name@ == "Americano Coffee"@,
            r@[2].name@ == "Omellete"@,
            r@[3].name@ == "Fried Egg"@,
            r@[4].name@ == "Club Sandwich"@,
            r@[5].name@ == "Fried Rice"@,
    {
        MealCatalog::empty()
            .add(MealInfo::new(0, "Green Tea", 60))
            .add(MealInfo::new(1, "Americano Coffee", 120))
            .add(MealInfo::new(2, "Omellete", 180))
            .add(MealInfo::new(3, "Fried Egg", 240))
            .add(MealInfo::new(4, "Club Sandwich", 300))
            .add(MealInfo::new(5, "Fried Rice", 360))
    }

    /// All meals, in catalog order.
    pub fn get_all(&self) -> (r: &Vec<MealInfo>)
        ensures
            r@ == self@,
    {
        &self.meals
    }
}

} // verus!

use vstd::prelude::*;

use crate::galaxy::{Galaxy, Position};
use crate::star::{mass_range_of, Star, StarClass};
use crate::stream::stream_from_seed;
use crate::table::{
    class_count, count_for_row, lemma_plan_from, plan, plan_from, table_class, table_row, TABLE_ROWS,
};

verus! {

/// Fixed point used by the real-valued settings: this many units make one.
pub const SETTING_UNITS_PER_ONE: i64 = 1_000_000;

/// The seed of a generation.
#[derive(Debug, PartialEq, Eq, Structural, Copy, Clone)]
pub struct Seed(pub u64);

/// Shape of a galaxy. `gravity`, `radius`, `arm_spread` and
/// `rotation_strength` are fixed-point values in millionths.
#[derive(Debug, PartialEq, Eq, Structural, Copy, Clone)]
pub struct GalaxySettings {
    pub stars_count: i32,
    pub gravity: i64,
    pub radius: i64,
    pub arms_count: u8,
    pub arm_spread: i64,
    pub rotation_strength: i64,
}

/// Settings that no galaxy can be generated from.
#[derive(Debug, PartialEq, Eq, Structural, Copy, Clone)]
pub enum ConfigurationError {
    TooFewArms,
    NegativeStarCount,
    NonPositiveRadius,
}

/// The error, if any, that the settings raise; the checks run in the order
/// arms, star count, radius.
pub open spec fn settings_error(s: GalaxySettings) -> Option<ConfigurationError> {
    if s.arms_count < 2 {
        Some(ConfigurationError::TooFewArms)
    } else if s.stars_count < 0 {
        Some(ConfigurationError::NegativeStarCount)
    } else if s.radius <= 0 {
        Some(ConfigurationError::NonPositiveRadius)
    } else {
        None
    }
}

impl GalaxySettings {
    /// Checks the settings.
    pub fn validate(&self) -> (r: Result<(), ConfigurationError>)
        ensures
            r is Ok <==> settings_error(*self) is None,
            r is Err ==> settings_error(*self) == Some(r->Err_0),
    {
        if self.arms_count < 2 {
            Err(ConfigurationError::TooFewArms)
        } else if self.stars_count < 0 {
            Err(ConfigurationError::NegativeStarCount)
        } else if self.radius <= 0 {
            Err(ConfigurationError::NonPositiveRadius)
        } else {
            Ok(())
        }
    }
}

/// Drives one generation: hands out the classes of the population table in
/// order and collects the stars. The caller owns the shared random stream;
/// each star is placed on it before its mass is drawn from it.
pub struct GalaxyGenerator {
    settings: GalaxySettings,
    row: usize,
    left: u32,
    galaxy: Galaxy,
}

impl GalaxyGenerator {
    /// Classes still to be generated, in order.
    pub closed spec fn remaining(&self) -> Seq<StarClass> {
        if self.row < TABLE_ROWS {
            Seq::new(self.left as nat, |j: int| table_class(self.row as int)) + plan_from(
                self.settings.stars_count as int,
                self.row + 1,
            )
        } else {
            Seq::empty()
        }
    }

    /// The stars placed so far.
    pub closed spec fn placed(&self) -> Map<Position, Star> {
        self.galaxy@
    }

    pub closed spec fn wf(&self) -> bool {
        &&& self.row <= TABLE_ROWS
        &&& self.row < TABLE_ROWS ==> self.left > 0
        &&& self.settings.stars_count >= 0
        &&& self.galaxy.wf()
    }

    /// Skips rows whose count is zero.
    fn settle(&mut self)
        requires
            old(self).row <= TABLE_ROWS,
            old(self).settings.stars_count >= 0,
            old(self).galaxy.wf(),
        ensures
            final(self).wf(),
            final(self).remaining() == old(self).remaining(),
            final(self).galaxy == old(self).galaxy,
            final(self).settings == old(self).settings,
    {
        let n = self.settings.stars_count as u32;
        while self.row < TABLE_ROWS && self.left == 0
            invariant
                self.row <= TABLE_ROWS,
                n as int == self.settings.stars_count,
                self.settings == old(self).settings,
                self.galaxy == old(self).galaxy,
                self.remaining() == old(self).remaining(),
            decreases TABLE_ROWS - self.row,
        {
            let ghost before = self.remaining();
            let row = self.row + 1;
            if row < TABLE_ROWS {
                self.left = count_for_row(n, row);
            }
            self.row = row;
            proof {
                let k = row as int;
                assert(Seq::new(0nat, |j: int| table_class(k - 1)) + plan_from(n as int, k)
                    =~= plan_from(n as int, k));
                if k < TABLE_ROWS {
                    assert(class_count(n as int, k) >= 0) by (nonlinear_arith)
                        requires
                            n >= 0,
                            class_count(n as int, k) == (n * crate::table::table_ratio(k) + 500)
                                / 1000,
                            crate::table::table_ratio(k) >= 0,
                    ;
                }
                assert(self.remaining() =~= before);
            }
        }
    }

    /// Starts a generation: checks the settings.
    pub fn new(settings: GalaxySettings) -> (r: Result<
        GalaxyGenerator,
        ConfigurationError,
    >)
        ensures
            r is Err <==> settings_error(settings) is Some,
            r is Err ==> settings_error(settings) == Some(r->Err_0),
            r is Ok ==> {
                let g = r->Ok_0;
                &&& g.wf()
                &&& g.remaining() == plan(settings.stars_count as int)
                &&& g.placed() == Map::<Position, Star>::empty()
            },
    {
        match settings.validate() {
            Err(e) => Err(e),
            Ok(()) => {
                let n = settings.stars_count as u32;
                let left = count_for_row(n, 0);
                let mut g = GalaxyGenerator {
                    settings,
                    row: 0,
                    left,
                    galaxy: Galaxy::new(),
                };
                proof {
                    assert(g.remaining() =~= plan(settings.stars_count as int));
                }
                g.settle();
                Ok(g)
            },
        }
    }

    /// The population table never asks for a white dwarf.
    pub proof fn lemma_no_white_dwarf(&self)
        requires
            self.wf(),
        ensures
            forall|i: int|
                0 <= i < self.remaining().len() ==> #[trigger] self.remaining()[i]
                    != StarClass::WhiteDwarf,
    {
        if self.row < TABLE_ROWS {
            lemma_plan_from(self.settings.stars_count as int, self.row + 1);
        }
    }

    /// The class of the next star to generate, or `None` once every class of
    /// the table has its count.
    pub fn next_class(&self) -> (r: Option<StarClass>)
        requires
            self.wf(),
        ensures
            r == (if self.remaining().len() > 0 {
                Some(self.remaining()[0])
            } else {
                None
            }),
    {
        if self.row < TABLE_ROWS {
            let (class, _) = table_row(self.row);
            Some(class)
        } else {
            None
        }
    }

    /// Generates the next star at `position`: draws its mass on `rng` from
    /// the range of the next class and puts it there, replacing any star
    /// already at that position. Returns the star.
    pub fn place_next(&mut self, rng: &mut rand::rngs::StdRng, position: Position) -> (r: Star)
        requires
            old(self).wf(),
            old(self).remaining().len() > 0,
        ensures
            final(self).wf(),
            final(self).remaining() == old(self).remaining().drop_first(),
            final(self).placed() == old(self).placed().insert(position, r),
            r.wf(),
            mass_range_of(old(self).remaining()[0]).0 <= r.mass < mass_range_of(
                old(self).remaining()[0],
            ).1,
    {
        let (class, _) = table_row(self.row);
        let star = Star::from_class(rng, class);
        self.galaxy.insert(position, star);
        let ghost before = self.remaining();
        self.left = self.left - 1;
        proof {
            assert(self.remaining() =~= before.drop_first());
        }
        self.settle();
        star
    }

    /// Ends the generation and hands out the galaxy.
    pub fn finish(self) -> (r: Galaxy)
        requires
            self.wf(),
        ensures
            r.wf(),
            r@ == self.placed(),
    {
        self.galaxy
    }
}

impl Galaxy {
    /// Generates a galaxy from the seed and the settings. `place` draws each
    /// star's position on the stream, which it hands back; the star's mass is
    /// then drawn on the stream from the range of the class that the
    /// population table asks for, and a star already at that position is
    /// replaced.
    pub fn generate<F: Fn(rand::rngs::StdRng) -> (rand::rngs::StdRng, Position)>(
        seed: Seed,
        settings: GalaxySettings,
        place: F,
    ) -> (r: Result<Galaxy, ConfigurationError>)
        requires
            forall|rng: rand::rngs::StdRng| #[trigger] place.requires((rng,)),
        ensures
            r is Err <==> settings_error(settings) is Some,
            r is Err ==> settings_error(settings) == Some(r->Err_0),
            r is Ok ==> {
                let g = r->Ok_0;
                &&& g.wf()
                &&& g@.len() <= plan(settings.stars_count as int).len()
                &&& g@.len() == 0 <==> plan(settings.stars_count as int).len() == 0
                &&& forall|p: Position| #[trigger] g@.contains_key(p) ==> mass_range_of(
                    StarClass::M,
                ).0 <= g@[p].mass < mass_range_of(StarClass::O).1
            },
    {
        let mut generator = match GalaxyGenerator::new(settings) {
            Ok(g) => g,
            Err(e) => return Err(e),
        };
        let mut rng = stream_from_seed(seed.0);
        let ghost n = plan(settings.stars_count as int).len();
        while generator.next_class().is_some()
            invariant
                generator.wf(),
                forall|rng: rand::rngs::StdRng| #[trigger] place.requires((rng,)),
                generator.placed().len() + generator.remaining().len() <= n,
                generator.placed().len() == 0 ==> generator.remaining().len() == n,
                generator.placed().dom().finite(),
                forall|p: Position| #[trigger] generator.placed().contains_key(p) ==> mass_range_of(
                    StarClass::M,
                ).0 <= generator.placed()[p].mass < mass_range_of(StarClass::O).1,
            decreases generator.remaining().len(),
        {
            let ghost before = generator.placed();
            let ghost class = generator.remaining()[0];
            proof {
                generator.lemma_no_white_dwarf();
            }
            let (r, position) = place(rng);
            rng = r;
            let star = generator.place_next(&mut rng, position);
            proof {
                assert(generator.placed() == before.insert(position, star));
                if before.contains_key(position) {
                    assert(before.insert(position, star).dom() =~= before.dom());
                }
            }
        }
        Ok(generator.finish())
    }
}

} // verus!

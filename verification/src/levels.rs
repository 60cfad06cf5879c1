//! The fixed level catalog and the introductory tutorial text.

use vstd::prelude::*;

verus! {

/// One level specification: the target silhouette's asset id, the source
/// shape's asset id, the cut budget, and a scale factor carried in
/// hundredths (100 stands for unscaled).
#[derive(Debug, PartialEq, Eq)]
pub struct SpawnLevel {
    pub target: String,
    pub source: String,
    pub number_of_cuts: usize,
    pub scale_percent: u32,
}

/// The mathematical value of a level specification.
pub ghost struct SpawnLevelView {
    pub target: Seq<char>,
    pub source: Seq<char>,
    pub number_of_cuts: int,
    pub scale_percent: int,
}

impl View for SpawnLevel {
    type V = SpawnLevelView;

    open spec fn view(&self) -> SpawnLevelView {
        SpawnLevelView {
            target: self.target@,
            source: self.source@,
            number_of_cuts: self.number_of_cuts as int,
            scale_percent: self.scale_percent as int,
        }
    }
}

impl SpawnLevel {
    /// A specification with the default, unscaled size.
    pub fn new3(target: &str, source: &str, number_of_cuts: usize) -> (r: SpawnLevel)
        ensures
            r@ == (SpawnLevelView {
                target: target@,
                source: source@,
                number_of_cuts: number_of_cuts as int,
                scale_percent: 100,
            }),
    {
        SpawnLevel {
            target: target.to_owned(),
            source: source.to_owned(),
            number_of_cuts,
            scale_percent: 100,
        }
    }

    /// A specification with an explicit scale, in hundredths.
    pub fn new4(
        target: &str,
        source: &str,
        number_of_cuts: usize,
        scale_percent: u32,
    ) -> (r: SpawnLevel)
        ensures
            r@ == (SpawnLevelView {
                target: target@,
                source: source@,
                number_of_cuts: number_of_cuts as int,
                scale_percent: scale_percent as int,
            }),
    {
        SpawnLevel {
            target: target.to_owned(),
            source: source.to_owned(),
            number_of_cuts,
            scale_percent,
        }
    }

    /// A fresh copy with the same contents.
    pub fn duplicate(&self) -> (r: SpawnLevel)
        ensures
            r@ == self@,
    {
        SpawnLevel {
            target: self.target.clone(),
            source: self.source.clone(),
            number_of_cuts: self.number_of_cuts,
            scale_percent: self.scale_percent,
        }
    }
}

/// A reference into the catalog: a difficulty tier and a tier-local index.
#[derive(Clone, Copy, Debug, PartialEq, Eq, Structural)]
pub enum Level {
    Simplicity(usize),
    Convexity(usize),
    Perplexity(usize),
    Complexity(usize),
}

/// The catalog: four ordered tiers of level specifications, built once at
/// startup and immutable thereafter.
pub struct GameLevels {
    pub simplicity: Vec<SpawnLevel>,
    pub convexity: Vec<SpawnLevel>,
    pub perplexity: Vec<SpawnLevel>,
    pub complexity: Vec<SpawnLevel>,
}

/// The mathematical value of the catalog.
pub ghost struct GameLevelsView {
    pub simplicity: Seq<SpawnLevelView>,
    pub convexity: Seq<SpawnLevelView>,
    pub perplexity: Seq<SpawnLevelView>,
    pub complexity: Seq<SpawnLevelView>,
}

/// The views of a sequence of level specifications, in order.
pub open spec fn views_of(levels: Seq<SpawnLevel>) -> Seq<SpawnLevelView> {
    levels.map_values(|l: SpawnLevel| l@)
}

impl View for GameLevels {
    type V = GameLevelsView;

    open spec fn view(&self) -> GameLevelsView {
        GameLevelsView {
            simplicity: views_of(self.simplicity@),
            convexity: views_of(self.convexity@),
            perplexity: views_of(self.perplexity@),
            complexity: views_of(self.complexity@),
        }
    }
}

impl GameLevels {
    /// Whether a level reference resolves to a valid index in its tier.
    /// References are produced only by internal progression logic, so an
    /// out-of-range one is a programming defect, ruled out by contract.
    pub open spec fn level_in_bounds(self, level: Level) -> bool {
        match level {
            Level::Simplicity(idx) => idx < self@.simplicity.len(),
            Level::Convexity(idx) => idx < self@.convexity.len(),
            Level::Perplexity(idx) => idx < self@.perplexity.len(),
            Level::Complexity(idx) => idx < self@.complexity.len(),
        }
    }

    /// The specification a level reference resolves to.
    pub open spec fn spec_get(self, level: Level) -> SpawnLevelView {
        match level {
            Level::Simplicity(idx) => self@.simplicity[idx as int],
            Level::Convexity(idx) => self@.convexity[idx as int],
            Level::Perplexity(idx) => self@.perplexity[idx as int],
            Level::Complexity(idx) => self@.complexity[idx as int],
        }
    }

    /// Returns a copy of the specification at the given tier and index.
    pub fn get(&self, level: &Level) -> (r: SpawnLevel)
        requires
            self.level_in_bounds(*level),
        ensures
            r@ == self.spec_get(*level),
    {
        match level {
            Level::Simplicity(idx) => self.simplicity[*idx].duplicate(),
            Level::Convexity(idx) => self.convexity[*idx].duplicate(),
            Level::Perplexity(idx) => self.perplexity[*idx].duplicate(),
            Level::Complexity(idx) => self.complexity[*idx].duplicate(),
        }
    }
}

/// The introductory tier's table, in play order.
pub open spec fn simplicity_table() -> Seq<SpawnLevelView> {
    seq![
        SpawnLevelView {
            target: "002_simplicity_square"@,
            source: "002_simplicity_square"@,
            number_of_cuts: 0,
            scale_percent: 100,
        },
        SpawnLevelView {
            target: "002_simplicity_square"@,
            source: "003_simplicity_square_oblique"@,
            number_of_cuts: 3,
            scale_percent: 100,
        },
        SpawnLevelView {
            target: "002_simplicity_square"@,
            source: "004_simplicity_square_cut"@,
            number_of_cuts: 4,
            scale_percent: 120,
        },
        SpawnLevelView {
            target: "002_simplicity_square"@,
            source: "tree1"@,
            number_of_cuts: 3,
            scale_percent: 125,
        },
        SpawnLevelView {
            target: "002_simplicity_square"@,
            source: "004_simplicity_square_parallel"@,
            number_of_cuts: 4,
            scale_percent: 115,
        },
        SpawnLevelView {
            target: "002_simplicity_square"@,
            source: "octogone"@,
            number_of_cuts: 3,
            scale_percent: 150,
        },
    ]
}

/// The second tier's table, in play order.
pub open spec fn convexity_table() -> Seq<SpawnLevelView> {
    seq![
        SpawnLevelView {
            target: "eggplant"@,
            source: "tree1"@,
            number_of_cuts: 3,
            scale_percent: 130,
        },
        SpawnLevelView {
            target: "crab1"@,
            source: "whale1"@,
            number_of_cuts: 3,
            scale_percent: 130,
        },
        SpawnLevelView {
            target: "seal1"@,
            source: "pear"@,
            number_of_cuts: 3,
            scale_percent: 130,
        },
    ]
}

impl Default for GameLevels {
    /// Builds the whole catalog: six introductory levels, three convexity
    /// levels, and two tiers still empty.
    fn default() -> (r: Self)
        ensures
            r@.simplicity == simplicity_table(),
            r@.convexity == convexity_table(),
            r@.perplexity == Seq::<SpawnLevelView>::empty(),
            r@.complexity == Seq::<SpawnLevelView>::empty(),
    {
        let mut simplicity: Vec<SpawnLevel> = Vec::new();
        simplicity.push(SpawnLevel::new3("002_simplicity_square", "002_simplicity_square", 0));
        simplicity.push(
            SpawnLevel::new3("002_simplicity_square", "003_simplicity_square_oblique", 3),
        );
        simplicity.push(
            SpawnLevel::new4("002_simplicity_square", "004_simplicity_square_cut", 4, 120),
        );
        simplicity.push(SpawnLevel::new4("002_simplicity_square", "tree1", 3, 125));
        simplicity.push(
            SpawnLevel::new4("002_simplicity_square", "004_simplicity_square_parallel", 4, 115),
        );
        simplicity.push(SpawnLevel::new4("002_simplicity_square", "octogone", 3, 150));

        let mut convexity: Vec<SpawnLevel> = Vec::new();
        convexity.push(SpawnLevel::new4("eggplant", "tree1", 3, 130));
        convexity.push(SpawnLevel::new4("crab1", "whale1", 3, 130));
        convexity.push(SpawnLevel::new4("seal1", "pear", 3, 130));

        let perplexity: Vec<SpawnLevel> = Vec::new();
        let complexity: Vec<SpawnLevel> = Vec::new();

        let r = GameLevels { simplicity, convexity, perplexity, complexity };
        proof {
            assert(r@.simplicity =~= simplicity_table());
            assert(r@.convexity =~= convexity_table());
            assert(r@.perplexity =~= Seq::<SpawnLevelView>::empty());
            assert(r@.complexity =~= Seq::<SpawnLevelView>::empty());
        }
        r
    }
}

/// The instruction text shown for an introductory-tier level: fixed copy
/// for the first six levels, empty for every later index.
pub open spec fn tutorial_text_spec(simplicity_level: usize) -> Seq<char> {
    if simplicity_level == 0 {
        "The goal is the fit the polygon inside of the target area"@
    } else if simplicity_level == 1 {
        "Rotate the polygon using either the right mouse button or the scroll wheel"@
    } else if simplicity_level == 2 {
        "Perform a cut by holding either the Ctrl key or the C key, and then using the mouse"@
    } else if simplicity_level == 3 {
        "The number of remaining cuts for the level is shown in the top left corner"@
    } else if simplicity_level == 4 {
        "There is a \"restart level\" option in the pause menu accessible via the escape or M key"@
    } else if simplicity_level == 5 {
        "Your are on your own now! Good luck!"@
    } else {
        ""@
    }
}

/// Returns the tutorial copy for an introductory-tier level index; the
/// empty string for indices past the tutorial, which the caller suppresses.
pub fn tutorial_text(simplicity_level: usize) -> (r: String)
    ensures
        r@ == tutorial_text_spec(simplicity_level),
{
    let text: &str = if simplicity_level == 0 {
        "The goal is the fit the polygon inside of the target area"
    } else if simplicity_level == 1 {
        "Rotate the polygon using either the right mouse button or the scroll wheel"
    } else if simplicity_level == 2 {
        "Perform a cut by holding either the Ctrl key or the C key, and then using the mouse"
    } else if simplicity_level == 3 {
        "The number of remaining cuts for the level is shown in the top left corner"
    } else if simplicity_level == 4 {
        "There is a \"restart level\" option in the pause menu accessible via the escape or M key"
    } else if simplicity_level == 5 {
        "Your are on your own now! Good luck!"
    } else {
        ""
    };
    text.to_owned()
}

} // verus!

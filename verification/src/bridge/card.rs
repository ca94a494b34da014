use vstd::prelude::*;
use vstd::string::*;
use crate::text::texts_of;

verus! {

/// One square of a BingoSync board.
#[derive(Debug, Clone)]
pub struct BingoSyncCard {
    pub name: String,
}

impl View for BingoSyncCard {
    type V = Seq<char>;

    open spec fn view(&self) -> Seq<char> {
        self.name@
    }
}

/// The names that a sequence of BingoSync cards holds.
pub open spec fn card_names(cards: Seq<BingoSyncCard>) -> Seq<Seq<char>> {
    Seq::new(cards.len(), |i: int| cards[i]@)
}

/// What a Lockout Live objective says, as plain values.
pub ghost struct LockoutLiveCardView {
    pub goal: Seq<char>,
    pub individual_limit: nat,
    pub preferred_grid_position: nat,
    pub range: Seq<Seq<char>>,
    pub board_categories: Seq<Seq<char>>,
    pub line_categories: Seq<Seq<char>>,
    pub icons: Seq<Seq<char>>,
}

/// The objective that the generator writes for a goal text: limit 1, the
/// given 1-based position, and no ranges, categories or icons.
pub open spec fn plain_objective(goal: Seq<char>, position: nat) -> LockoutLiveCardView {
    LockoutLiveCardView {
        goal,
        individual_limit: 1,
        preferred_grid_position: position,
        range: Seq::empty(),
        board_categories: Seq::empty(),
        line_categories: Seq::empty(),
        icons: Seq::empty(),
    }
}

/// One objective of a Lockout Live board.
#[derive(Debug, Clone)]
pub struct LockoutLiveCard {
    pub goal: String,
    pub individual_limit: u32,
    pub preferred_grid_position: usize,
    range: Vec<String>,
    board_categories: Vec<String>,
    line_categories: Vec<String>,
    icons: Vec<String>,
}

impl View for LockoutLiveCard {
    type V = LockoutLiveCardView;

    closed spec fn view(&self) -> LockoutLiveCardView {
        LockoutLiveCardView {
            goal: self.goal@,
            individual_limit: self.individual_limit as nat,
            preferred_grid_position: self.preferred_grid_position as nat,
            range: texts_of(self.range@),
            board_categories: texts_of(self.board_categories@),
            line_categories: texts_of(self.line_categories@),
            icons: texts_of(self.icons@),
        }
    }
}

impl LockoutLiveCard {
    pub fn new(goal: String, preferred_grid_position: usize) -> (card: Self)
        ensures
            card@ == plain_objective(goal@, preferred_grid_position as nat),
    {
        let card = Self {
            goal,
            preferred_grid_position,
            individual_limit: 1,
            range: Vec::new(),
            board_categories: Vec::new(),
            line_categories: Vec::new(),
            icons: Vec::new(),
        };
        assert(texts_of(card.range@) =~= Seq::empty());
        assert(texts_of(card.board_categories@) =~= Seq::empty());
        assert(texts_of(card.line_categories@) =~= Seq::empty());
        assert(texts_of(card.icons@) =~= Seq::empty());
        card
    }

    pub fn range(&self) -> (list: &Vec<String>)
        ensures
            texts_of(list@) == self@.range,
    {
        &self.range
    }

    pub fn board_categories(&self) -> (list: &Vec<String>)
        ensures
            texts_of(list@) == self@.board_categories,
    {
        &self.board_categories
    }

    pub fn line_categories(&self) -> (list: &Vec<String>)
        ensures
            texts_of(list@) == self@.line_categories,
    {
        &self.line_categories
    }

    pub fn icons(&self) -> (list: &Vec<String>)
        ensures
            texts_of(list@) == self@.icons,
    {
        &self.icons
    }
}

impl Default for LockoutLiveCard {
    /// An objective with an empty goal, limit 1 and position 0.
    fn default() -> (card: Self)
        ensures
            card@ == plain_objective(Seq::empty(), 0),
    {
        LockoutLiveCard::new(String::new(), 0)
    }
}

/// The objectives that a sequence of cards holds.
pub open spec fn objectives_of(cards: Seq<LockoutLiveCard>) -> Seq<LockoutLiveCardView> {
    Seq::new(cards.len(), |i: int| cards[i]@)
}

/// The limits of one scope of a Lockout Live board, as plain values: the
/// scope's name, and a bound for each named category.
pub ghost struct LimitGroupView {
    pub scope: Seq<char>,
    pub bounds: Seq<(Seq<char>, nat)>,
}

/// A bound on how often a category may occur.
#[derive(Debug, Clone)]
pub struct CategoryLimit {
    pub category: String,
    pub bound: usize,
}

/// The limits that hold within one scope ("board", "line").
#[derive(Debug, Clone)]
pub struct LimitGroup {
    pub scope: String,
    pub bounds: Vec<CategoryLimit>,
}

impl View for LimitGroup {
    type V = LimitGroupView;

    open spec fn view(&self) -> LimitGroupView {
        LimitGroupView {
            scope: self.scope@,
            bounds: Seq::new(
                self.bounds@.len(),
                |i: int| (self.bounds@[i].category@, self.bounds@[i].bound as nat),
            ),
        }
    }
}

/// The limit groups that a sequence holds.
pub open spec fn limits_of(groups: Seq<LimitGroup>) -> Seq<LimitGroupView> {
    Seq::new(groups.len(), |i: int| groups[i]@)
}

/// No scope occurs twice, and within a scope no category does: the groups
/// stand for a map from scope to a map from category to bound.
pub open spec fn limits_are_a_map(groups: Seq<LimitGroupView>) -> bool {
    &&& forall|i: int, j: int|
        0 <= i < j < groups.len() ==> (#[trigger] groups[i]).scope != (#[trigger] groups[j]).scope
    &&& forall|g: int, i: int, j: int|
        0 <= g < groups.len() && 0 <= i < j < groups[g].bounds.len() ==> (
        #[trigger] groups[g].bounds[i]).0 != (#[trigger] groups[g].bounds[j]).0
}

/// What a Lockout Live board says, as plain values.
pub ghost struct LockoutLiveBoardView {
    pub version: Seq<char>,
    pub game: Seq<char>,
    pub objectives: Seq<LockoutLiveCardView>,
    pub limits: Seq<LimitGroupView>,
}

/// A board in the form that Lockout Live reads.
#[derive(Debug, Clone)]
pub struct LockoutLiveBoard {
    pub version: String,
    pub game: String,
    pub objectives: Vec<LockoutLiveCard>,
    pub limits: Vec<LimitGroup>,
}

impl View for LockoutLiveBoard {
    type V = LockoutLiveBoardView;

    open spec fn view(&self) -> LockoutLiveBoardView {
        LockoutLiveBoardView {
            version: self.version@,
            game: self.game@,
            objectives: objectives_of(self.objectives@),
            limits: limits_of(self.limits@),
        }
    }
}

} // verus!

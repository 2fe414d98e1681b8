//! The 52 cards: thirteen ranks in four suits, each with its scoring value.

use vstd::prelude::*;
use vstd::string::StringExecFns;

verus! {

/// The four suits, in the order in which a fresh shoe lays them out.
#[derive(Clone, Copy, Debug, PartialEq, Eq, Structural)]
pub enum Suit {
    Spades,
    Hearts,
    Diamonds,
    Clubs,
}

/// The thirteen ranks, from the two up to the ace.
#[derive(Clone, Copy, Debug, PartialEq, Eq, Structural)]
pub enum Rank {
    Two,
    Three,
    Four,
    Five,
    Six,
    Seven,
    Eight,
    Nine,
    Ten,
    Jack,
    Queen,
    King,
    Ace,
}

/// One card of the shoe. `drawn` is false while the card is still in the shoe
/// and true on the shoe's slot and on every copy handed out once it was dealt.
#[derive(Clone, Copy, Debug, PartialEq, Eq, Structural)]
pub struct Card {
    pub rank: Rank,
    pub suit: Suit,
    pub drawn: bool,
}

/// Number of ranks in a suit.
pub const RANKS: usize = 13;

/// Number of suits.
pub const SUITS: usize = 4;

/// The rank at position `i` of a suit: 0 is the two, 12 and anything beyond
/// is the ace.
pub open spec fn rank_at(i: int) -> Rank {
    if i <= 0 {
        Rank::Two
    } else if i == 1 {
        Rank::Three
    } else if i == 2 {
        Rank::Four
    } else if i == 3 {
        Rank::Five
    } else if i == 4 {
        Rank::Six
    } else if i == 5 {
        Rank::Seven
    } else if i == 6 {
        Rank::Eight
    } else if i == 7 {
        Rank::Nine
    } else if i == 8 {
        Rank::Ten
    } else if i == 9 {
        Rank::Jack
    } else if i == 10 {
        Rank::Queen
    } else if i == 11 {
        Rank::King
    } else {
        Rank::Ace
    }
}

/// The suit at position `i`: 0 is spades, 3 and anything beyond is clubs.
pub open spec fn suit_at(i: int) -> Suit {
    if i <= 0 {
        Suit::Spades
    } else if i == 1 {
        Suit::Hearts
    } else if i == 2 {
        Suit::Diamonds
    } else {
        Suit::Clubs
    }
}

/// What a rank contributes to a hand before the ace rule is applied: the
/// number ranks count their number, the ten and the faces 10, the ace 11.
pub open spec fn rank_value(rank: Rank) -> int {
    match rank {
        Rank::Two => 2,
        Rank::Three => 3,
        Rank::Four => 4,
        Rank::Five => 5,
        Rank::Six => 6,
        Rank::Seven => 7,
        Rank::Eight => 8,
        Rank::Nine => 9,
        Rank::Ten => 10,
        Rank::Jack => 10,
        Rank::Queen => 10,
        Rank::King => 10,
        Rank::Ace => 11,
    }
}

/// The name of a rank.
pub open spec fn rank_label(rank: Rank) -> Seq<char> {
    match rank {
        Rank::Two => "2nd"@,
        Rank::Three => "3rd"@,
        Rank::Four => "4th"@,
        Rank::Five => "5th"@,
        Rank::Six => "6th"@,
        Rank::Seven => "7th"@,
        Rank::Eight => "8th"@,
        Rank::Nine => "9th"@,
        Rank::Ten => "10th"@,
        Rank::Jack => "Jack"@,
        Rank::Queen => "Queen"@,
        Rank::King => "King"@,
        Rank::Ace => "Ace"@,
    }
}

/// The name of a suit.
pub open spec fn suit_label(suit: Suit) -> Seq<char> {
    match suit {
        Suit::Spades => "Spades"@,
        Suit::Hearts => "Hearts"@,
        Suit::Diamonds => "Diamonds"@,
        Suit::Clubs => "Clubs"@,
    }
}

/// The name of a card: the rank's name, " of ", the suit's name.
pub open spec fn card_label(rank_name: Seq<char>, suit_name: Seq<char>) -> Seq<char> {
    rank_name + " of "@ + suit_name
}

/// The card that slot `i` of a fresh shoe holds: suit `i / 13`, rank `i % 13`,
/// not drawn.
pub open spec fn card_at(i: int) -> Card {
    Card { rank: rank_at(i % 13), suit: suit_at(i / 13), drawn: false }
}

impl Rank {
    /// The rank at position `i` of a suit.
    pub fn from_index(i: usize) -> (rank: Rank)
        ensures
            rank == rank_at(i as int),
    {
        match i {
            0 => Rank::Two,
            1 => Rank::Three,
            2 => Rank::Four,
            3 => Rank::Five,
            4 => Rank::Six,
            5 => Rank::Seven,
            6 => Rank::Eight,
            7 => Rank::Nine,
            8 => Rank::Ten,
            9 => Rank::Jack,
            10 => Rank::Queen,
            11 => Rank::King,
            _ => Rank::Ace,
        }
    }

    /// The name of this rank.
    pub fn label(self) -> (name: &'static str)
        ensures
            name@ == rank_label(self),
    {
        match self {
            Rank::Two => "2nd",
            Rank::Three => "3rd",
            Rank::Four => "4th",
            Rank::Five => "5th",
            Rank::Six => "6th",
            Rank::Seven => "7th",
            Rank::Eight => "8th",
            Rank::Nine => "9th",
            Rank::Ten => "10th",
            Rank::Jack => "Jack",
            Rank::Queen => "Queen",
            Rank::King => "King",
            Rank::Ace => "Ace",
        }
    }

    /// The scoring value of this rank.
    pub fn value(self) -> (v: u8)
        ensures
            v == rank_value(self),
            2 <= v <= 11,
            v == 11 <==> self == Rank::Ace,
    {
        match self {
            Rank::Two => 2,
            Rank::Three => 3,
            Rank::Four => 4,
            Rank::Five => 5,
            Rank::Six => 6,
            Rank::Seven => 7,
            Rank::Eight => 8,
            Rank::Nine => 9,
            Rank::Ten | Rank::Jack | Rank::Queen | Rank::King => 10,
            Rank::Ace => 11,
        }
    }
}

impl Suit {
    /// The name of this suit.
    pub fn label(self) -> (name: &'static str)
        ensures
            name@ == suit_label(self),
    {
        match self {
            Suit::Spades => "Spades",
            Suit::Hearts => "Hearts",
            Suit::Diamonds => "Diamonds",
            Suit::Clubs => "Clubs",
        }
    }

    /// The suit at position `i`.
    pub fn from_index(i: usize) -> (suit: Suit)
        ensures
            suit == suit_at(i as int),
    {
        match i {
            0 => Suit::Spades,
            1 => Suit::Hearts,
            2 => Suit::Diamonds,
            _ => Suit::Clubs,
        }
    }
}

impl Card {
    /// The scoring value of the card, as a specification.
    pub open spec fn points(self) -> int {
        rank_value(self.rank)
    }

    /// The same card with its `drawn` flag set.
    pub open spec fn marked(self) -> Card {
        Card { rank: self.rank, suit: self.suit, drawn: true }
    }

    /// The scoring value of the card: 2 to 10, or 11 for an ace.
    pub fn value(&self) -> (v: u8)
        ensures
            v == self.points(),
            2 <= v <= 11,
    {
        self.rank.value()
    }

    /// The name of the card, such as "Queen of Hearts".
    pub fn name(&self) -> (name: String)
        ensures
            name@ == card_label(rank_label(self.rank), suit_label(self.suit)),
    {
        card_name(self.rank.label(), self.suit.label())
    }

    /// Whether the card is an ace.
    pub fn is_ace(&self) -> (ace: bool)
        ensures
            ace == (self.rank == Rank::Ace),
            ace == (self.points() == 11),
    {
        self.rank == Rank::Ace
    }
}

/// The name of the card with the given rank name and suit name.
pub fn card_name(rank_name: &str, suit_name: &str) -> (name: String)
    ensures
        name@ == card_label(rank_name@, suit_name@),
{
    let mut name = String::from_str(rank_name);
    name.append(" of ");
    name.append(suit_name);
    name
}

/// The names of the 52 cards, suit by suit: the name at `13 * s + r` is that
/// of rank name `r` in suit name `s`.
pub fn generate_card_names(card_types: [&str; 4], card_values: [&str; 13]) -> (names: Vec<String>)
    ensures
        names@.len() == 52,
        forall|s: int, r: int|
            0 <= s < 4 && 0 <= r < 13 ==> (#[trigger] names@[13 * s + r])@ == card_label(
                card_values@[r]@,
                card_types@[s]@,
            ),
{
    let mut names: Vec<String> = Vec::new();
    let mut s: usize = 0;
    while s < SUITS
        invariant
            s <= 4,
            names@.len() == 13 * s,
            forall|i: int|
                0 <= i < names@.len() ==> (#[trigger] names@[i])@ == card_label(
                    card_values@[i % 13]@,
                    card_types@[i / 13]@,
                ),
        decreases 4 - s,
    {
        let mut r: usize = 0;
        while r < RANKS
            invariant
                s < 4,
                r <= 13,
                names@.len() == 13 * s + r,
                forall|i: int|
                    0 <= i < names@.len() ==> (#[trigger] names@[i])@ == card_label(
                        card_values@[i % 13]@,
                        card_types@[i / 13]@,
                    ),
            decreases 13 - r,
        {
            names.push(card_name(card_values[r], card_types[s]));
            r += 1;
        }
        s += 1;
    }
    names
}

/// The 52 slots of a fresh shoe.
pub open spec fn fresh_cards() -> Seq<Card> {
    Seq::new(52, |i: int| card_at(i))
}

/// The cards of a fresh shoe: 52 cards, slot `13 * s + r` holding rank `r` of
/// suit `s`, none of them drawn.
pub fn generate_cards() -> (cards: Vec<Card>)
    ensures
        cards@ == fresh_cards(),
{
    let mut cards: Vec<Card> = Vec::new();
    let mut s: usize = 0;
    while s < SUITS
        invariant
            s <= 4,
            cards@.len() == 13 * s,
            forall|i: int| 0 <= i < cards@.len() ==> cards@[i] == card_at(i),
        decreases 4 - s,
    {
        let mut r: usize = 0;
        while r < RANKS
            invariant
                s < 4,
                r <= 13,
                cards@.len() == 13 * s + r,
                forall|i: int| 0 <= i < cards@.len() ==> cards@[i] == card_at(i),
            decreases 13 - r,
        {
            cards.push(Card { rank: Rank::from_index(r), suit: Suit::from_index(s), drawn: false });
            r += 1;
        }
        s += 1;
    }
    proof {
        assert(cards@ =~= fresh_cards());
    }
    cards
}

/// No two slots of a fresh shoe hold the same rank of the same suit.
pub proof fn fresh_cards_are_distinct(i: int, j: int)
    requires
        0 <= i < 52,
        0 <= j < 52,
        i != j,
    ensures
        card_at(i).rank != card_at(j).rank || card_at(i).suit != card_at(j).suit,
{
}

/// Every card is worth its number, 10 for the ten and the faces, 11 for the ace.
pub proof fn fresh_card_values(i: int)
    requires
        0 <= i < 52,
    ensures
        i % 13 < 8 ==> card_at(i).points() == 2 + i % 13,
        8 <= i % 13 < 12 ==> card_at(i).points() == 10,
        i % 13 == 12 ==> card_at(i).points() == 11,
{
}

} // verus!

//! The input records: what was performed, for whom, and the catalogue of plays.

use vstd::hash_map::StringHashMap;
use vstd::prelude::*;

verus! {

/// One line item of an invoice: a play, named by its identifier in the
/// catalogue, and the size of the audience.
#[derive(Clone, Debug)]
pub struct Performance {
    pub play_id: String,
    pub audience: u64,
}

/// A customer's order: the performances in the order in which they are billed.
#[derive(Clone, Debug)]
pub struct Invoice {
    pub customer: String,
    pub performances: Vec<Performance>,
}

/// A catalogue entry: the play's title and the name of its genre.
#[derive(Clone, Debug)]
pub struct Play {
    pub name: String,
    pub p_type: String,
}

/// The catalogue, keyed by play identifier.
pub type Plays = StringHashMap<Play>;

/// A performance as plain values.
pub struct PerformanceView {
    pub play_id: Seq<char>,
    pub audience: nat,
}

/// An invoice as plain values.
pub struct InvoiceView {
    pub customer: Seq<char>,
    pub performances: Seq<PerformanceView>,
}

/// A catalogue entry as plain values.
pub struct PlayView {
    pub name: Seq<char>,
    pub p_type: Seq<char>,
}

impl View for Performance {
    type V = PerformanceView;

    open spec fn view(&self) -> PerformanceView {
        PerformanceView { play_id: self.play_id@, audience: self.audience as nat }
    }
}

impl View for Play {
    type V = PlayView;

    open spec fn view(&self) -> PlayView {
        PlayView { name: self.name@, p_type: self.p_type@ }
    }
}

impl View for Invoice {
    type V = InvoiceView;

    open spec fn view(&self) -> InvoiceView {
        InvoiceView {
            customer: self.customer@,
            performances: self.performances@.map_values(|p: Performance| p@),
        }
    }
}

/// The catalogue as a map from identifier to entry.
pub open spec fn catalogue(plays: &Plays) -> Map<Seq<char>, PlayView> {
    plays@.map_values(|p: Play| p@)
}

} // verus!

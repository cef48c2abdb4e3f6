//! Priced performances and the statement that collects them.

use crate::calculator::PerformanceCalculator;
use crate::types::{
    catalogue, Invoice, InvoiceView, Performance, PerformanceView, Play, PlayView, Plays,
};
use vstd::prelude::*;
use vstd::string::*;

verus! {

/// Why no statement can be made for an invoice.
#[derive(Clone, Debug, PartialEq, Eq)]
pub enum StatementError {
    /// A performance names a play that the catalogue does not hold; the
    /// identifier is given.
    UnknownPlay(String),
    /// A play's genre has no pricing rule; the genre is given.
    UnsupportedGenre(String),
}

/// An error with its text as a sequence of characters.
pub enum StatementErrorView {
    UnknownPlay(Seq<char>),
    UnsupportedGenre(Seq<char>),
}

impl View for StatementError {
    type V = StatementErrorView;

    open spec fn view(&self) -> StatementErrorView {
        match self {
            StatementError::UnknownPlay(id) => StatementErrorView::UnknownPlay(id@),
            StatementError::UnsupportedGenre(genre) => StatementErrorView::UnsupportedGenre(genre@),
        }
    }
}

/// The message of an error: what is wrong, a colon, and the offending name.
pub open spec fn message_text(error: StatementErrorView) -> Seq<char> {
    match error {
        StatementErrorView::UnknownPlay(id) => "unknown play:"@ + id,
        StatementErrorView::UnsupportedGenre(genre) => "unknown type:"@ + genre,
    }
}

impl StatementError {
    /// The error as a message for people.
    pub fn message(&self) -> (text: String)
        ensures
            text@ == message_text(self@),
    {
        match self {
            StatementError::UnknownPlay(id) => {
                let mut text = String::from_str("unknown play:");
                text.append(id.as_str());
                text
            },
            StatementError::UnsupportedGenre(genre) => {
                let mut text = String::from_str("unknown type:");
                text.append(genre.as_str());
                text
            },
        }
    }
}

/// A performance bound to its catalogue entry and to the rule that prices it.
pub struct EnrichedPerformanceView {
    pub perf: PerformanceView,
    pub play: PlayView,
    pub calculator: PerformanceCalculator,
}

impl EnrichedPerformanceView {
    /// The charge, in minor units.
    pub open spec fn amount(self) -> nat {
        self.calculator.spec_amount(self.perf.audience)
    }

    /// The loyalty credits earned.
    pub open spec fn volume_credits(self) -> nat {
        self.calculator.spec_volume_credits(self.perf.audience)
    }

    /// Whether both figures fit in 64 bits.
    pub open spec fn fits(self) -> bool {
        self.calculator.fits(self.perf.audience)
    }
}

/// What enriching one performance gives: the priced line, or the reason why
/// the performance cannot be billed. A missing play is reported before an
/// unsupported genre can be.
pub open spec fn enrich(perf: PerformanceView, catalogue: Map<Seq<char>, PlayView>) -> Result<
    EnrichedPerformanceView,
    StatementErrorView,
> {
    if !catalogue.contains_key(perf.play_id) {
        Err(StatementErrorView::UnknownPlay(perf.play_id))
    } else {
        let play = catalogue[perf.play_id];
        match PerformanceCalculator::spec_for_genre(play.p_type) {
            None => Err(StatementErrorView::UnsupportedGenre(play.p_type)),
            Some(calculator) => Ok(EnrichedPerformanceView { perf, play, calculator }),
        }
    }
}

/// A performance with its play, its charge and its credits, all fixed when it
/// is made.
pub struct EnrichedPerformance<'a> {
    calculator: PerformanceCalculator,
    perf: &'a Performance,
    play: &'a Play,
    amount: u64,
    volume_credits: u64,
}

impl<'a> View for EnrichedPerformance<'a> {
    type V = EnrichedPerformanceView;

    closed spec fn view(&self) -> EnrichedPerformanceView {
        EnrichedPerformanceView { perf: self.perf@, play: self.play@, calculator: self.calculator }
    }
}

/// The outcome of an enrichment, seen through the views of both cases.
pub open spec fn enriched_view(result: Result<EnrichedPerformance, StatementError>) -> Result<
    EnrichedPerformanceView,
    StatementErrorView,
> {
    match result {
        Ok(line) => Ok(line@),
        Err(error) => Err(error@),
    }
}

impl<'a> EnrichedPerformance<'a> {
    #[verifier::type_invariant]
    spec fn well_formed(self) -> bool {
        &&& PerformanceCalculator::spec_for_genre(self.play.p_type@) == Some(self.calculator)
        &&& self.amount == self.calculator.spec_amount(self.perf.audience as nat)
        &&& self.volume_credits == self.calculator.spec_volume_credits(self.perf.audience as nat)
    }

    /// Binds a performance to its play and prices it.
    pub fn new(perf: &'a Performance, plays: &'a Plays) -> (result: Result<Self, StatementError>)
        requires
            enrich(perf@, catalogue(plays)) matches Ok(line) ==> line.fits(),
        ensures
            enriched_view(result) == enrich(perf@, catalogue(plays)),
    {
        match plays.get(perf.play_id.as_str()) {
            None => Err(StatementError::UnknownPlay(perf.play_id.clone())),
            Some(play) => match Self::create_performance_calculator(play) {
                Err(error) => Err(error),
                Ok(calculator) => {
                    let amount = calculator.amount(perf.audience);
                    let volume_credits = calculator.volume_credits(perf.audience);
                    Ok(EnrichedPerformance { calculator, perf, play, amount, volume_credits })
                },
            },
        }
    }

    /// Chooses the pricing rule for a play by its genre.
    pub fn create_performance_calculator(play: &Play) -> (result: Result<
        PerformanceCalculator,
        StatementError,
    >)
        ensures
            match PerformanceCalculator::spec_for_genre(play@.p_type) {
                Some(calculator) => result == Ok::<PerformanceCalculator, StatementError>(
                    calculator,
                ),
                None => result is Err && result->Err_0@ == StatementErrorView::UnsupportedGenre(
                    play@.p_type,
                ),
            },
    {
        match PerformanceCalculator::for_genre(&play.p_type) {
            Some(calculator) => Ok(calculator),
            None => Err(StatementError::UnsupportedGenre(play.p_type.clone())),
        }
    }

    /// The charge, in minor units.
    pub fn amount(&self) -> (result: u64)
        ensures
            result == self@.amount(),
    {
        proof {
            use_type_invariant(self);
        }
        self.amount
    }

    /// The loyalty credits earned.
    pub fn volume_credits(&self) -> (result: u64)
        ensures
            result == self@.volume_credits(),
    {
        proof {
            use_type_invariant(self);
        }
        self.volume_credits
    }

    /// The catalogue entry of the play performed.
    pub fn play(&self) -> (result: &Play)
        ensures
            result@ == self@.play,
    {
        self.play
    }

    /// The size of the audience.
    pub fn audience(&self) -> (result: u64)
        ensures
            result == self@.perf.audience,
    {
        self.perf.audience
    }

    /// The rule that priced the performance: the one that the genre of its
    /// play selects.
    pub fn calculator(&self) -> (result: PerformanceCalculator)
        ensures
            result == self@.calculator,
            PerformanceCalculator::spec_for_genre(self@.play.p_type) == Some(result),
    {
        proof {
            use_type_invariant(self);
        }
        self.calculator
    }
}

/// The sum of the charges of the lines.
pub open spec fn total_amount(lines: Seq<EnrichedPerformanceView>) -> nat
    decreases lines.len(),
{
    if lines.len() == 0 {
        0
    } else {
        total_amount(lines.drop_last()) + lines.last().amount()
    }
}

/// The sum of the credits of the lines.
pub open spec fn total_volume_credits(lines: Seq<EnrichedPerformanceView>) -> nat
    decreases lines.len(),
{
    if lines.len() == 0 {
        0
    } else {
        total_volume_credits(lines.drop_last()) + lines.last().volume_credits()
    }
}

/// Enriches the performances in order. The result is every line, in the order
/// of the performances, or the error of the first performance that has one.
pub open spec fn enrich_all(
    performances: Seq<PerformanceView>,
    catalogue: Map<Seq<char>, PlayView>,
) -> Result<Seq<EnrichedPerformanceView>, StatementErrorView>
    decreases performances.len(),
{
    if performances.len() == 0 {
        Ok(Seq::empty())
    } else {
        match enrich_all(performances.drop_last(), catalogue) {
            Err(error) => Err(error),
            Ok(lines) => match enrich(performances.last(), catalogue) {
                Err(error) => Err(error),
                Ok(line) => Ok(lines.push(line)),
            },
        }
    }
}

/// A customer's statement: the priced lines in invoice order.
pub struct StatementView {
    pub customer: Seq<char>,
    pub lines: Seq<EnrichedPerformanceView>,
}

impl StatementView {
    /// The amount owed: the sum of the charges.
    pub open spec fn total_amount(self) -> nat {
        total_amount(self.lines)
    }

    /// The credits earned: the sum over the lines.
    pub open spec fn total_volume_credits(self) -> nat {
        total_volume_credits(self.lines)
    }

    /// Whether both totals fit in 64 bits.
    pub open spec fn fits(self) -> bool {
        self.total_amount() <= u64::MAX && self.total_volume_credits() <= u64::MAX
    }
}

/// The statement for an invoice, or the reason why there is none: one
/// performance that cannot be billed leaves the whole invoice without a
/// statement.
pub open spec fn build(invoice: InvoiceView, catalogue: Map<Seq<char>, PlayView>) -> Result<
    StatementView,
    StatementErrorView,
> {
    match enrich_all(invoice.performances, catalogue) {
        Ok(lines) => Ok(StatementView { customer: invoice.customer, lines }),
        Err(error) => Err(error),
    }
}

/// Whether the charge and the credits of every performance that gets priced
/// fit in 64 bits. A performance gets priced where it and all before it can
/// be enriched.
pub open spec fn lines_fit(
    performances: Seq<PerformanceView>,
    catalogue: Map<Seq<char>, PlayView>,
) -> bool {
    forall|n: int|
        0 < n <= performances.len() ==> (#[trigger] enrich_all(performances.take(n), catalogue)
            matches Ok(lines) ==> lines.last().fits())
}

/// Whether every figure that making a statement of the invoice computes fits
/// in 64 bits: the charge and the credits of each performance that gets
/// priced, and, where the statement can be built, its totals.
pub open spec fn within_limits(invoice: InvoiceView, catalogue: Map<Seq<char>, PlayView>) -> bool {
    &&& lines_fit(invoice.performances, catalogue)
    &&& build(invoice, catalogue) matches Ok(statement) ==> statement.fits()
}

/// The priced lines of one invoice, in invoice order, for one customer.
pub struct StatementData<'a> {
    pub customer: String,
    pub performances: Vec<EnrichedPerformance<'a>>,
}

impl<'a> View for StatementData<'a> {
    type V = StatementView;

    open spec fn view(&self) -> StatementView {
        StatementView {
            customer: self.customer@,
            lines: self.performances@.map_values(|line: EnrichedPerformance| line@),
        }
    }
}

/// The outcome of building a statement, seen through the views of both cases.
pub open spec fn statement_view(result: Result<StatementData, StatementError>) -> Result<
    StatementView,
    StatementErrorView,
> {
    match result {
        Ok(data) => Ok(data@),
        Err(error) => Err(error@),
    }
}

/// An error among the first performances is the error of the whole sequence.
pub proof fn lemma_enrich_all_error_stays(
    performances: Seq<PerformanceView>,
    catalogue: Map<Seq<char>, PlayView>,
    n: int,
)
    requires
        0 <= n <= performances.len(),
        enrich_all(performances.take(n), catalogue) is Err,
    ensures
        enrich_all(performances, catalogue) == enrich_all(performances.take(n), catalogue),
    decreases performances.len(),
{
    if n < performances.len() {
        assert(performances.drop_last().take(n) == performances.take(n));
        lemma_enrich_all_error_stays(performances.drop_last(), catalogue, n);
    } else {
        assert(performances.take(n) == performances);
    }
}

/// One more line adds its charge and its credits to the totals.
pub proof fn lemma_totals_push(lines: Seq<EnrichedPerformanceView>, line: EnrichedPerformanceView)
    ensures
        total_amount(lines.push(line)) == total_amount(lines) + line.amount(),
        total_volume_credits(lines.push(line)) == total_volume_credits(lines)
            + line.volume_credits(),
{
    assert(lines.push(line).drop_last() == lines);
}

/// Taking one line out takes its charge and its credits out of the totals.
pub proof fn lemma_totals_remove(lines: Seq<EnrichedPerformanceView>, i: int)
    requires
        0 <= i < lines.len(),
    ensures
        total_amount(lines) == total_amount(lines.remove(i)) + lines[i].amount(),
        total_volume_credits(lines) == total_volume_credits(lines.remove(i))
            + lines[i].volume_credits(),
    decreases lines.len(),
{
    if i == lines.len() - 1 {
        assert(lines.remove(i) == lines.drop_last());
    } else {
        lemma_totals_remove(lines.drop_last(), i);
        assert(lines.remove(i).drop_last() == lines.drop_last().remove(i));
        assert(lines.remove(i).last() == lines.last());
    }
}

/// The totals do not depend on the order of the lines: two sequences that
/// hold the same lines, each as often as the other, have the same totals.
pub proof fn lemma_totals_ignore_order(
    first: Seq<EnrichedPerformanceView>,
    second: Seq<EnrichedPerformanceView>,
)
    requires
        first.to_multiset() == second.to_multiset(),
    ensures
        total_amount(first) == total_amount(second),
        total_volume_credits(first) == total_volume_credits(second),
    decreases first.len(),
{
    broadcast use vstd::seq_lib::group_to_multiset_ensures;

    if first.len() == 0 {
        assert(first.to_multiset().len() == 0);
        assert(second.to_multiset().len() == second.len());
    } else {
        let line = first.last();
        assert(first.contains(line));
        assert(second.to_multiset().count(line) > 0);
        assert(second.contains(line));
        let k = choose|k: int| 0 <= k < second.len() && second[k] == line;
        assert(first.drop_last() == first.remove(first.len() - 1));
        assert(first.drop_last().to_multiset() == second.remove(k).to_multiset());
        lemma_totals_ignore_order(first.drop_last(), second.remove(k));
        lemma_totals_remove(second, k);
    }
}

/// The lines of a statement follow the invoice: there is one for each
/// performance, and each is the enrichment of the performance at its place.
pub proof fn lemma_lines_follow_invoice(
    performances: Seq<PerformanceView>,
    catalogue: Map<Seq<char>, PlayView>,
)
    requires
        enrich_all(performances, catalogue) is Ok,
    ensures
        enrich_all(performances, catalogue)->Ok_0.len() == performances.len(),
        forall|i: int|
            0 <= i < performances.len() ==> #[trigger] enrich(performances[i], catalogue) == Ok::<
                EnrichedPerformanceView,
                StatementErrorView,
            >(enrich_all(performances, catalogue)->Ok_0[i]),
    decreases performances.len(),
{
    if performances.len() > 0 {
        lemma_lines_follow_invoice(performances.drop_last(), catalogue);
        let lines = enrich_all(performances, catalogue)->Ok_0;
        let before = enrich_all(performances.drop_last(), catalogue)->Ok_0;
        assert forall|i: int| 0 <= i < performances.len() implies #[trigger] enrich(
            performances[i],
            catalogue,
        ) == Ok::<EnrichedPerformanceView, StatementErrorView>(lines[i]) by {
            if i < performances.len() - 1 {
                assert(performances[i] == performances.drop_last()[i]);
                assert(lines[i] == before[i]);
            }
        }
    }
}

/// A statement is all or nothing. Where it fails, its error is that of the
/// first performance, in invoice order, that cannot be enriched; it fails as
/// soon as one performance cannot be, so an unknown play or an unsupported
/// genre anywhere in the invoice leaves no statement.
pub proof fn lemma_first_failure_decides(
    performances: Seq<PerformanceView>,
    catalogue: Map<Seq<char>, PlayView>,
)
    ensures
        enrich_all(performances, catalogue) is Ok <==> forall|i: int|
            0 <= i < performances.len() ==> #[trigger] enrich(performances[i], catalogue) is Ok,
        enrich_all(performances, catalogue) matches Err(error) ==> exists|i: int|
            0 <= i < performances.len() && #[trigger] enrich(performances[i], catalogue) == Err::<
                EnrichedPerformanceView,
                StatementErrorView,
            >(error) && forall|j: int|
                0 <= j < i ==> #[trigger] enrich(performances[j], catalogue) is Ok,
    decreases performances.len(),
{
    if performances.len() > 0 {
        let front = performances.drop_last();
        let last = performances.len() - 1;
        lemma_first_failure_decides(front, catalogue);
        assert(forall|i: int| 0 <= i < last ==> front[i] == performances[i]);
        match enrich_all(front, catalogue) {
            Err(error) => {
                let i = choose|i: int|
                    0 <= i < front.len() && #[trigger] enrich(front[i], catalogue) == Err::<
                        EnrichedPerformanceView,
                        StatementErrorView,
                    >(error) && forall|j: int|
                        0 <= j < i ==> #[trigger] enrich(front[j], catalogue) is Ok;
                assert(enrich(performances[i], catalogue) == Err::<
                    EnrichedPerformanceView,
                    StatementErrorView,
                >(error));
                assert(forall|j: int|
                    0 <= j < i ==> #[trigger] enrich(performances[j], catalogue) is Ok);
            },
            Ok(_) => {
                assert(forall|i: int|
                    0 <= i < last ==> #[trigger] enrich(performances[i], catalogue) is Ok);
                match enrich(performances.last(), catalogue) {
                    Err(error) => {
                        assert(enrich(performances[last], catalogue) == Err::<
                            EnrichedPerformanceView,
                            StatementErrorView,
                        >(error));
                    },
                    Ok(_) => {
                        assert forall|i: int| 0 <= i < performances.len() implies #[trigger] enrich(
                            performances[i],
                            catalogue,
                        ) is Ok by {
                            if i < last {
                            }
                        }
                    },
                }
            },
        }
    }
}

/// Where the first `n` performances cannot all be enriched, only the lines
/// before them are priced: the limits on all lines are those on the first
/// `n - 1`.
pub proof fn lemma_lines_fit_up_to_failure(
    performances: Seq<PerformanceView>,
    catalogue: Map<Seq<char>, PlayView>,
    n: int,
)
    requires
        0 < n <= performances.len(),
        enrich_all(performances.take(n), catalogue) is Err,
        lines_fit(performances.take(n - 1), catalogue),
    ensures
        lines_fit(performances, catalogue),
{
    assert forall|m: int| 0 < m <= performances.len() implies (#[trigger] enrich_all(
        performances.take(m),
        catalogue,
    ) matches Ok(lines) ==> lines.last().fits()) by {
        if m < n {
            assert(performances.take(n - 1).take(m) == performances.take(m));
        } else {
            assert(performances.take(m).take(n) == performances.take(n));
            lemma_enrich_all_error_stays(performances.take(m), catalogue, n);
        }
    }
}

/// The limits on the lines of the first `n` performances are those on the
/// first `n - 1` and, where all `n` can be enriched, on the last line.
pub proof fn lemma_lines_fit_one_more(
    performances: Seq<PerformanceView>,
    catalogue: Map<Seq<char>, PlayView>,
    n: int,
)
    requires
        0 < n <= performances.len(),
        lines_fit(performances.take(n - 1), catalogue),
        enrich_all(performances.take(n), catalogue) matches Ok(lines) ==> lines.last().fits(),
    ensures
        lines_fit(performances.take(n), catalogue),
{
    assert forall|m: int| 0 < m <= n implies (#[trigger] enrich_all(
        performances.take(n).take(m),
        catalogue,
    ) matches Ok(lines) ==> lines.last().fits()) by {
        assert(performances.take(n).take(m) == performances.take(m));
        if m < n {
            assert(performances.take(n - 1).take(m) == performances.take(m));
        }
    }
}

/// The total of the first lines is no more than the total of all.
pub proof fn lemma_totals_grow(lines: Seq<EnrichedPerformanceView>, n: int)
    requires
        0 <= n <= lines.len(),
    ensures
        total_amount(lines.take(n)) <= total_amount(lines),
        total_volume_credits(lines.take(n)) <= total_volume_credits(lines),
    decreases lines.len(),
{
    if n < lines.len() {
        assert(lines.drop_last().take(n) == lines.take(n));
        lemma_totals_grow(lines.drop_last(), n);
    } else {
        assert(lines.take(n) == lines);
    }
}

impl<'a> StatementData<'a> {
    /// The sum of the charges of all lines.
    pub fn total_amount(&self) -> (result: u64)
        requires
            self@.total_amount() <= u64::MAX,
        ensures
            result == self@.total_amount(),
    {
        let ghost lines = self@.lines;
        let mut result: u64 = 0;
        let mut i: usize = 0;
        while i < self.performances.len()
            invariant
                i <= self.performances.len(),
                lines == self@.lines,
                lines.len() == self.performances.len(),
                total_amount(lines) <= u64::MAX,
                result == total_amount(lines.take(i as int)),
            decreases self.performances.len() - i,
        {
            let amount = self.performances[i].amount();
            proof {
                assert(lines.take(i + 1).drop_last() == lines.take(i as int));
                lemma_totals_grow(lines, i + 1);
            }
            result += amount;
            i += 1;
        }
        assert(lines.take(i as int) == lines);
        result
    }

    /// The sum of the credits of all lines.
    pub fn total_volume_credits(self) -> (result: u64)
        requires
            self@.total_volume_credits() <= u64::MAX,
        ensures
            result == self@.total_volume_credits(),
    {
        let ghost lines = self@.lines;
        let mut result: u64 = 0;
        let mut i: usize = 0;
        while i < self.performances.len()
            invariant
                i <= self.performances.len(),
                lines == self@.lines,
                lines.len() == self.performances.len(),
                total_volume_credits(lines) <= u64::MAX,
                result == total_volume_credits(lines.take(i as int)),
            decreases self.performances.len() - i,
        {
            let credits = self.performances[i].volume_credits();
            proof {
                assert(lines.take(i + 1).drop_last() == lines.take(i as int));
                lemma_totals_grow(lines, i + 1);
            }
            result += credits;
            i += 1;
        }
        assert(lines.take(i as int) == lines);
        result
    }
}

/// Builds the statement of an invoice: every performance enriched, in invoice
/// order. Fails with the error of the first performance that cannot be
/// enriched.
pub fn create_statement_data<'a>(invoice: &'a Invoice, plays: &'a Plays) -> (result: Result<
    StatementData<'a>,
    StatementError,
>)
    requires
        lines_fit(invoice@.performances, catalogue(plays)),
    ensures
        statement_view(result) == build(invoice@, catalogue(plays)),
{
    let ghost wanted = invoice@.performances;
    let mut performances: Vec<EnrichedPerformance<'a>> = Vec::new();
    let mut i: usize = 0;
    assert(performances@.map_values(|line: EnrichedPerformance| line@) == Seq::<
        EnrichedPerformanceView,
    >::empty());
    while i < invoice.performances.len()
        invariant
            i <= invoice.performances.len(),
            wanted == invoice@.performances,
            wanted.len() == invoice.performances.len(),
            lines_fit(wanted, catalogue(plays)),
            enrich_all(wanted.take(i as int), catalogue(plays)) == Ok::<_, StatementErrorView>(
                performances@.map_values(|line: EnrichedPerformance| line@),
            ),
        decreases invoice.performances.len() - i,
    {
        proof {
            assert(wanted.take(i + 1).drop_last() == wanted.take(i as int));
            assert(wanted.take(i + 1).last() == invoice.performances[i as int]@);
            if let Ok(lines) = enrich_all(wanted.take(i + 1), catalogue(plays)) {
                assert(lines.last().fits());
            }
        }
        match EnrichedPerformance::new(&invoice.performances[i], plays) {
            Err(error) => {
                proof {
                    lemma_enrich_all_error_stays(wanted, catalogue(plays), i + 1);
                }
                return Err(error);
            },
            Ok(line) => {
                let ghost before = performances@.map_values(|line: EnrichedPerformance| line@);
                performances.push(line);
                assert(performances@.map_values(|line: EnrichedPerformance| line@) == before.push(
                    line@,
                ));
            },
        }
        i += 1;
    }
    assert(wanted.take(i as int) == wanted);
    Ok(StatementData { customer: invoice.customer.clone(), performances })
}

/// Tells whether every figure that making a statement of the invoice computes
/// fits in 64 bits. Building and rendering ask for this of their callers.
pub fn check_limits(invoice: &Invoice, plays: &Plays) -> (ok: bool)
    ensures
        ok == within_limits(invoice@, catalogue(plays)),
{
    let ghost wanted = invoice@.performances;
    let ghost plays_by_id = catalogue(plays);
    let mut over = false;
    let mut amount: u64 = 0;
    let mut credits: u64 = 0;
    let mut i: usize = 0;
    assert(wanted.take(0).len() == 0);
    while i < invoice.performances.len()
        invariant
            i <= invoice.performances.len(),
            wanted == invoice@.performances,
            wanted.len() == invoice.performances.len(),
            plays_by_id == catalogue(plays),
            enrich_all(wanted.take(i as int), plays_by_id) is Ok,
            lines_fit(wanted.take(i as int), plays_by_id),
            over <==> !(StatementView {
                customer: invoice@.customer,
                lines: enrich_all(wanted.take(i as int), plays_by_id)->Ok_0,
            }).fits(),
            !over ==> amount == total_amount(enrich_all(wanted.take(i as int), plays_by_id)->Ok_0)
                && credits == total_volume_credits(
                enrich_all(wanted.take(i as int), plays_by_id)->Ok_0,
            ),
        decreases invoice.performances.len() - i,
    {
        let perf = &invoice.performances[i];
        let ghost lines = enrich_all(wanted.take(i as int), plays_by_id)->Ok_0;
        proof {
            assert(wanted.take(i + 1).drop_last() == wanted.take(i as int));
            assert(wanted.take(i + 1).last() == perf@);
        }
        let calculator = match plays.get(perf.play_id.as_str()) {
            None => None,
            Some(play) => PerformanceCalculator::for_genre(&play.p_type),
        };
        let calculator = match calculator {
            None => {
                proof {
                    lemma_lines_fit_up_to_failure(wanted, plays_by_id, i + 1);
                    lemma_enrich_all_error_stays(wanted, plays_by_id, i + 1);
                }
                return true;
            },
            Some(calculator) => calculator,
        };
        let ghost line = enrich(perf@, plays_by_id)->Ok_0;
        proof {
            lemma_totals_push(lines, line);
            assert(enrich_all(wanted.take(i + 1), plays_by_id)->Ok_0 == lines.push(line));
        }
        let (line_amount, line_credits) = match (
            calculator.checked_amount(perf.audience),
            calculator.checked_volume_credits(perf.audience),
        ) {
            (Some(line_amount), Some(line_credits)) => (line_amount, line_credits),
            _ => {
                assert(!line.fits());
                return false;
            },
        };
        if !over {
            match (amount.checked_add(line_amount), credits.checked_add(line_credits)) {
                (Some(more_amount), Some(more_credits)) => {
                    amount = more_amount;
                    credits = more_credits;
                },
                _ => {
                    over = true;
                },
            }
        }
        proof {
            lemma_lines_fit_one_more(wanted, plays_by_id, i + 1);
        }
        i += 1;
    }
    assert(wanted.take(i as int) == wanted);
    !over
}

} // verus!

//! The delivery batcher: packs the files that are ready into messages and keeps the books
//! while they are sent.
//!
//! Sending is the caller's business. The batcher says which unit goes out next, is told how the
//! send went, and stops handing out units after the first failure. What was delivered before a
//! failure stays delivered and stays in the books.

use vstd::prelude::*;

verus! {

/// The most attachments one message can carry.
pub const DISCORD_MAX_ATTACHMENTS_PER_MESSAGE: usize = 10;

/// How many assets a full delivery unit holds.
pub open spec fn unit_size(send_individually: bool) -> int {
    if send_individually {
        1
    } else {
        10
    }
}

/// How many delivery units `total` assets make: one each, or `ceil(total / 10)`.
pub open spec fn unit_count(total: int, send_individually: bool) -> int {
    if send_individually {
        total
    } else {
        (total + 9) / 10
    }
}

/// The position of the first asset of unit `index`.
pub open spec fn unit_start(index: int, send_individually: bool) -> int {
    if send_individually {
        index
    } else {
        index * 10
    }
}

/// The position after the last asset of unit `index`, among `total` assets.
pub open spec fn unit_end(total: int, index: int, send_individually: bool) -> int {
    let full = unit_start(index, send_individually) + unit_size(send_individually);
    if full <= total {
        full
    } else {
        total
    }
}

/// Unit `index`: a run of consecutive assets, in their order.
pub open spec fn unit_at(assets: Seq<String>, index: int, send_individually: bool) -> Seq<
    String,
> {
    assets.subrange(
        unit_start(index, send_individually),
        unit_end(assets.len() as int, index, send_individually),
    )
}

/// All delivery units of `assets`, in sending order.
pub open spec fn all_units(assets: Seq<String>, send_individually: bool) -> Seq<Seq<String>> {
    Seq::new(
        unit_count(assets.len() as int, send_individually) as nat,
        |index: int| unit_at(assets, index, send_individually),
    )
}

/// How many assets the first `units` units hold together, among `total` assets.
pub open spec fn assets_in(total: int, units: int, send_individually: bool) -> int {
    if unit_start(units, send_individually) <= total {
        unit_start(units, send_individually)
    } else {
        total
    }
}

/// Batching arithmetic: every unit is a non-empty run of at most ten assets (of exactly one
/// when sending individually); every unit but the last is full; and the last unit of a
/// batched delivery holds `total mod 10` assets, or ten where that is zero.
pub proof fn lemma_unit_sizes(assets: Seq<String>, index: int, send_individually: bool)
    requires
        0 <= index < unit_count(assets.len() as int, send_individually),
    ensures
        1 <= unit_at(assets, index, send_individually).len() <= unit_size(send_individually),
        index + 1 < unit_count(assets.len() as int, send_individually) ==> unit_at(
            assets,
            index,
            send_individually,
        ).len() == unit_size(send_individually),
        index + 1 == unit_count(assets.len() as int, send_individually) && !send_individually
            ==> unit_at(assets, index, send_individually).len() == if assets.len() % 10 == 0 {
            10
        } else {
            assets.len() % 10
        },
{
}

/// Order preservation within the batching: laid end to end, the first `count` units are the
/// first assets, in their order; all units together are all the assets.
pub proof fn lemma_units_cover_assets(assets: Seq<String>, count: int, send_individually: bool)
    requires
        0 <= count <= unit_count(assets.len() as int, send_individually),
    ensures
        all_units(assets, send_individually).take(count).flatten() == assets.take(
            assets_in(assets.len() as int, count, send_individually),
        ),
        count == unit_count(assets.len() as int, send_individually) ==> all_units(
            assets,
            send_individually,
        ).take(count).flatten() == assets,
    decreases count,
{
    let units = all_units(assets, send_individually);
    let total = assets.len() as int;
    if count == 0 {
        assert(units.take(0) =~= Seq::<Seq<String>>::empty());
        assert(units.take(0).flatten() =~= Seq::<String>::empty());
        assert(assets.take(0) =~= Seq::<String>::empty());
    } else {
        lemma_units_cover_assets(assets, count - 1, send_individually);
        lemma_unit_sizes(assets, count - 1, send_individually);
        let before = units.take(count - 1);
        let last = unit_at(assets, count - 1, send_individually);
        assert(units.take(count) =~= before.push(last));
        before.lemma_flatten_push(last);
        assert(before.flatten() + last =~= assets.take(
            assets_in(total, count, send_individually),
        ));
    }
    if count == unit_count(total, send_individually) {
        assert(assets_in(total, count, send_individually) == total);
        assert(assets.take(total) =~= assets);
    }
}

/// The number of messages a delivery of `total` assets takes: `total` when every asset goes
/// out alone, `ceil(total / 10)` otherwise.
pub fn batch_count(total: usize, send_individually: bool) -> (count: usize)
    ensures
        count == unit_count(total as int, send_individually),
{
    if send_individually {
        total
    } else if total % DISCORD_MAX_ATTACHMENTS_PER_MESSAGE == 0 {
        total / DISCORD_MAX_ATTACHMENTS_PER_MESSAGE
    } else {
        total / DISCORD_MAX_ATTACHMENTS_PER_MESSAGE + 1
    }
}

/// Copies the run `assets[start..end]`.
fn copy_run(assets: &Vec<String>, start: usize, end: usize) -> (unit: Vec<String>)
    requires
        start <= end <= assets.len(),
    ensures
        unit@ == assets@.subrange(start as int, end as int),
{
    let mut unit: Vec<String> = Vec::new();
    let mut position: usize = start;
    while position < end
        invariant
            start <= position <= end <= assets.len(),
            unit@ == assets@.subrange(start as int, position as int),
        decreases end - position,
    {
        unit.push(assets[position].clone());
        assert(unit@ =~= assets@.subrange(start as int, position + 1));
        position += 1;
    }
    unit
}

/// Groups the assets into delivery units: consecutive runs of ten (the last may be shorter),
/// or of one when `send_individually` is set. The order of the assets is kept.
pub fn delivery_units(assets: &Vec<String>, send_individually: bool) -> (units: Vec<Vec<String>>)
    ensures
        units.len() == unit_count(assets.len() as int, send_individually),
        forall|index: int|
            0 <= index < units.len() ==> (#[trigger] units[index])@ == unit_at(
                assets@,
                index,
                send_individually,
            ),
{
    let size: usize = if send_individually {
        1
    } else {
        DISCORD_MAX_ATTACHMENTS_PER_MESSAGE
    };
    let total = assets.len();
    let mut units: Vec<Vec<String>> = Vec::new();
    let mut start: usize = 0;
    while start < total
        invariant
            total == assets.len(),
            size == unit_size(send_individually),
            start <= total,
            start == assets_in(total as int, units.len() as int, send_individually),
            units.len() <= unit_count(total as int, send_individually),
            start < total ==> start == unit_start(units.len() as int, send_individually),
            forall|index: int|
                0 <= index < units.len() ==> (#[trigger] units[index])@ == unit_at(
                    assets@,
                    index,
                    send_individually,
                ),
        decreases total - start,
    {
        let end = if total - start > size {
            start + size
        } else {
            total
        };
        let unit = copy_run(assets, start, end);
        units.push(unit);
        start = end;
    }
    units
}

/// The books of one delivery, as mathematical values.
pub struct DeliveryState {
    /// The delivery units, in sending order.
    pub units: Seq<Seq<String>>,
    /// The identifier of every message delivered so far, in sending order.
    pub message_ids: Seq<String>,
    /// What the sink reported when a send failed.
    pub failure: Option<String>,
}

impl DeliveryState {
    /// The books before anything is sent.
    pub open spec fn initial(assets: Seq<String>, send_individually: bool) -> DeliveryState {
        DeliveryState {
            units: all_units(assets, send_individually),
            message_ids: Seq::empty(),
            failure: None,
        }
    }

    /// A unit is waiting to be sent: nothing has failed and not every unit is out.
    pub open spec fn pending(self) -> bool {
        self.failure is None && self.message_ids.len() < self.units.len()
    }

    /// The unit to send next: the one after those already delivered.
    pub open spec fn next_unit(self) -> Option<Seq<String>> {
        if self.pending() {
            Some(self.units[self.message_ids.len() as int])
        } else {
            None
        }
    }

    /// The number of units handed to the sink so far: those delivered, and the one that
    /// failed where one did.
    pub open spec fn attempted(self) -> nat {
        if self.failure is Some {
            self.message_ids.len() + 1
        } else {
            self.message_ids.len()
        }
    }

    /// Every unit was delivered, and there was at least one.
    pub open spec fn complete(self) -> bool {
        self.failure is None && self.message_ids.len() == self.units.len() && self.units.len() > 0
    }

    /// The books after the sink answered for the pending unit: an identifier is appended, a
    /// failure is noted and ends the delivery. Without a pending unit an answer changes nothing.
    pub open spec fn after(self, answer: Result<String, String>) -> DeliveryState {
        if !self.pending() {
            self
        } else {
            match answer {
                Ok(message_id) => DeliveryState {
                    message_ids: self.message_ids.push(message_id),
                    ..self
                },
                Err(error) => DeliveryState { failure: Some(error), ..self },
            }
        }
    }

    /// The books after a run of answers, taken in order.
    pub open spec fn after_all(self, answers: Seq<Result<String, String>>) -> DeliveryState
        decreases answers.len(),
    {
        if answers.len() == 0 {
            self
        } else {
            self.after(answers[0]).after_all(answers.skip(1))
        }
    }
}

/// The identifiers in a run of answers that are all successes.
pub open spec fn identifiers(answers: Seq<Result<String, String>>) -> Seq<String> {
    Seq::new(answers.len(), |i: int| answers[i]->Ok_0)
}

/// Order preservation: when the sink succeeds on every unit, the identifiers in the books are
/// the sink's answers in the order of the units, which is the order of the assets.
pub proof fn lemma_all_sent_in_order(
    start: DeliveryState,
    answers: Seq<Result<String, String>>,
)
    requires
        start.failure is None,
        start.message_ids.len() + answers.len() <= start.units.len(),
        forall|i: int| 0 <= i < answers.len() ==> (#[trigger] answers[i]) is Ok,
    ensures
        start.after_all(answers).units == start.units,
        start.after_all(answers).failure is None,
        start.after_all(answers).message_ids == start.message_ids + identifiers(answers),
    decreases answers.len(),
{
    if answers.len() == 0 {
        assert(start.message_ids + identifiers(answers) =~= start.message_ids);
    } else {
        let next = start.after(answers[0]);
        let rest = answers.skip(1);
        lemma_all_sent_in_order(next, rest);
        assert(start.message_ids.push(answers[0]->Ok_0) + identifiers(rest)
            =~= start.message_ids + identifiers(answers));
    }
}

/// Once a send has failed, or every unit is out, no further answer changes the books.
pub proof fn lemma_settled_books_stay(
    start: DeliveryState,
    answers: Seq<Result<String, String>>,
)
    requires
        !start.pending(),
    ensures
        start.after_all(answers) == start,
    decreases answers.len(),
{
    if answers.len() > 0 {
        lemma_settled_books_stay(start, answers.skip(1));
    }
}

/// Partial failure: if the sink succeeds on some units and then fails, the books keep the
/// identifiers of the units delivered before the failure, in order, note the failure, and
/// hand out no further unit, whatever answers follow.
pub proof fn lemma_failure_keeps_earlier_sends(
    start: DeliveryState,
    delivered: Seq<Result<String, String>>,
    error: String,
    later: Seq<Result<String, String>>,
)
    requires
        start.failure is None,
        start.message_ids.len() + delivered.len() < start.units.len(),
        forall|i: int| 0 <= i < delivered.len() ==> (#[trigger] delivered[i]) is Ok,
    ensures
        ({
            let end = start.after_all(delivered.push(Err(error)) + later);
            &&& end.message_ids == start.message_ids + identifiers(delivered)
            &&& end.failure == Some(error)
            &&& end.next_unit() is None
            &&& !end.complete()
        }),
    decreases delivered.len(),
{
    let answers = delivered.push(Err(error)) + later;
    if delivered.len() == 0 {
        assert(answers[0] == Err::<String, String>(error));
        assert(answers.skip(1) =~= later);
        lemma_settled_books_stay(start.after(answers[0]), later);
        assert(start.message_ids + identifiers(delivered) =~= start.message_ids);
    } else {
        let next = start.after(delivered[0]);
        let rest = delivered.skip(1);
        assert(answers[0] == delivered[0]);
        assert(answers.skip(1) =~= rest.push(Err(error)) + later);
        lemma_failure_keeps_earlier_sends(next, rest, error, later);
        assert(start.message_ids.push(delivered[0]->Ok_0) + identifiers(rest)
            =~= start.message_ids + identifiers(delivered));
    }
}

/// One delivery in progress.
pub struct Delivery {
    assets: Vec<String>,
    send_individually: bool,
    units: Vec<Vec<String>>,
    message_ids: Vec<String>,
    failure: Option<String>,
}

impl View for Delivery {
    type V = DeliveryState;

    closed spec fn view(&self) -> DeliveryState {
        DeliveryState {
            units: Seq::new(self.units.len() as nat, |index: int| self.units[index]@),
            message_ids: self.message_ids@,
            failure: self.failure,
        }
    }
}

impl Delivery {
    #[verifier::type_invariant]
    spec fn well_formed(&self) -> bool {
        &&& self@.units == all_units(self.assets@, self.send_individually)
        &&& self.message_ids.len() <= self.units.len()
        &&& self.failure is Some ==> self.message_ids.len() < self.units.len()
    }

    /// The assets this delivery was made for.
    pub closed spec fn assets(&self) -> Seq<String> {
        self.assets@
    }

    /// Whether every asset goes out in a message of its own.
    pub closed spec fn individually(&self) -> bool {
        self.send_individually
    }

    /// Groups `assets` into delivery units and opens the books.
    pub fn new(assets: Vec<String>, send_individually: bool) -> (delivery: Delivery)
        ensures
            delivery@ == DeliveryState::initial(assets@, send_individually),
            delivery.assets() == assets@,
            delivery.individually() == send_individually,
    {
        let units = delivery_units(&assets, send_individually);
        assert(Seq::new(units.len() as nat, |index: int| units[index]@) =~= all_units(
            assets@,
            send_individually,
        ));
        Delivery { assets, send_individually, units, message_ids: Vec::new(), failure: None }
    }

    /// The unit to hand to the sink next, or `None` when the delivery is over: every unit is
    /// out, or a send has failed.
    pub fn next_unit(&self) -> (unit: Option<&Vec<String>>)
        ensures
            unit is Some <==> self@.pending(),
            unit matches Some(attachments) ==> self@.next_unit() == Some(attachments@),
    {
        proof {
            use_type_invariant(self);
        }
        if self.failure.is_none() && self.message_ids.len() < self.units.len() {
            Some(&self.units[self.message_ids.len()])
        } else {
            None
        }
    }

    /// Enters the sink's answer for the unit that [`Delivery::next_unit`] handed out (the
    /// identifier of the message, or the error of the transport) and gives the books back.
    pub fn record(self, answer: Result<String, String>) -> (next: Delivery)
        ensures
            next@ == self@.after(answer),
            next.assets() == self.assets(),
            next.individually() == self.individually(),
    {
        proof {
            use_type_invariant(&self);
        }
        if self.failure.is_none() && self.message_ids.len() < self.units.len() {
            let Delivery { assets, send_individually, units, message_ids, failure } = self;
            let mut message_ids = message_ids;
            let mut failure = failure;
            match answer {
                Ok(message_id) => {
                    message_ids.push(message_id);
                },
                Err(error) => {
                    failure = Some(error);
                },
            }
            let next = Delivery { assets, send_individually, units, message_ids, failure };
            assert(next@.units =~= self@.units);
            next
        } else {
            self
        }
    }

    /// The identifiers of the messages delivered so far, in sending order.
    pub fn message_ids(&self) -> (ids: &Vec<String>)
        ensures
            ids@ == self@.message_ids,
    {
        &self.message_ids
    }

    /// Closes the books and hands over the identifiers of the messages delivered.
    pub fn into_message_ids(self) -> (ids: Vec<String>)
        ensures
            ids@ == self@.message_ids,
    {
        self.message_ids
    }

    /// What the sink reported when a send failed.
    pub fn failure(&self) -> (error: &Option<String>)
        ensures
            *error == self@.failure,
    {
        &self.failure
    }

    /// Whether every unit was delivered, and there was at least one.
    pub fn is_complete(&self) -> (complete: bool)
        ensures
            complete == self@.complete(),
            complete ==> self@.message_ids.len() == unit_count(
                self.assets().len() as int,
                self.individually(),
            ),
    {
        proof {
            use_type_invariant(self);
            assert(self@.units.len() == self.units.len());
        }
        self.failure.is_none() && self.message_ids.len() == self.units.len() && self.units.len()
            > 0
    }

    /// The number of units the assets were grouped into.
    pub fn batches_planned(&self) -> (count: usize)
        ensures
            count == self@.units.len(),
            self@.units == all_units(self.assets(), self.individually()),
    {
        proof {
            use_type_invariant(self);
        }
        self.units.len()
    }

    /// The number of units delivered so far.
    pub fn batches_sent(&self) -> (count: usize)
        ensures
            count == self@.message_ids.len(),
            count <= self@.units.len(),
            self@.failure is Some ==> count < self@.units.len(),
    {
        proof {
            use_type_invariant(self);
        }
        self.message_ids.len()
    }

    /// The number of units handed to the sink so far, the failed one included.
    pub fn batches_attempted(&self) -> (count: usize)
        ensures
            count == self@.attempted(),
            count <= self@.units.len(),
    {
        proof {
            use_type_invariant(self);
        }
        if self.failure.is_some() {
            self.message_ids.len() + 1
        } else {
            self.message_ids.len()
        }
    }

    /// The number of assets in the units delivered so far.
    pub fn images_sent(&self) -> (count: usize)
        ensures
            count == assets_in(
                self.assets().len() as int,
                self@.message_ids.len() as int,
                self.individually(),
            ),
    {
        proof {
            use_type_invariant(self);
            assert(self@.units.len() == self.units.len());
        }
        let sent = self.message_ids.len();
        if self.send_individually {
            sent
        } else if sent == self.units.len() {
            self.assets.len()
        } else {
            assert(sent * 10 <= self.assets.len());
            sent * DISCORD_MAX_ATTACHMENTS_PER_MESSAGE
        }
    }
}

} // verus!

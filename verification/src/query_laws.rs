//! Laws of the layout question.

use vstd::prelude::*;

#[allow(unused_imports)]
use crate::layout_query::{
    action_in, first_char, next_phase, utf16_text, InputSource, QueryAction, QueryPhase, QueryReply,
    TranslateRequest,
};

verus! {

/// A source was copied and is not released yet.
pub open spec fn holds_source(phase: QueryPhase) -> bool {
    !(phase is Copying) && !(phase is Finished)
}

/// Everything that a question does with a source, it does while it holds one,
/// and it copies a source and finishes only while it holds none.
pub proof fn sources_are_used_while_held(phase: QueryPhase, keycode: u32)
    ensures
        holds_source(phase) <==> match action_in(phase, keycode) {
            QueryAction::ReadLayout => true,
            QueryAction::ReadBytes => true,
            QueryAction::Translate(_) => true,
            QueryAction::Release => true,
            QueryAction::Copy(_) => false,
            QueryAction::Finish(_) => false,
        },
{
}

/// The phase that a sequence of replies leads to.
pub open spec fn phase_after(start: QueryPhase, replies: Seq<QueryReply>) -> QueryPhase
    decreases replies.len(),
{
    if replies.len() == 0 {
        start
    } else {
        next_phase(phase_after(start, replies.drop_last()), replies.last())
    }
}

/// The reply hands over a source that was asked for.
pub open spec fn copies(phase: QueryPhase, reply: QueryReply) -> bool {
    phase is Copying && reply == QueryReply::Copied(true)
}

/// The reply confirms a release that was asked for.
pub open spec fn releases(phase: QueryPhase, reply: QueryReply) -> bool {
    (phase is Discarding || phase is Closing) && reply is Released
}

/// How many sources were copied in the course of the replies.
pub open spec fn copy_count(start: QueryPhase, replies: Seq<QueryReply>) -> nat
    decreases replies.len(),
{
    if replies.len() == 0 {
        0
    } else {
        copy_count(start, replies.drop_last()) + if copies(
            phase_after(start, replies.drop_last()),
            replies.last(),
        ) {
            1nat
        } else {
            0nat
        }
    }
}

/// How many sources were released in the course of the replies.
pub open spec fn release_count(start: QueryPhase, replies: Seq<QueryReply>) -> nat
    decreases replies.len(),
{
    if replies.len() == 0 {
        0
    } else {
        release_count(start, replies.drop_last()) + if releases(
            phase_after(start, replies.drop_last()),
            replies.last(),
        ) {
            1nat
        } else {
            0nat
        }
    }
}

/// Whatever comes back, every source that was copied has been released once, but
/// for the one that is held. So a question that has finished has released every
/// source.
pub proof fn copied_sources_are_released(replies: Seq<QueryReply>)
    ensures
        ({
            let start = QueryPhase::Copying(InputSource::Current);
            copy_count(start, replies) == release_count(start, replies) + if holds_source(
                phase_after(start, replies),
            ) {
                1nat
            } else {
                0nat
            }
        }),
    decreases replies.len(),
{
    if replies.len() > 0 {
        copied_sources_are_released(replies.drop_last());
    }
}

/// What the system would answer: which sources there are, which of them have a
/// layout, which layouts have bytes, and what each translation comes to under each.
pub struct LayoutWorld {
    pub sources: Set<InputSource>,
    pub layouts: Set<InputSource>,
    pub bytes: Set<InputSource>,
    pub units: spec_fn(InputSource, TranslateRequest) -> Vec<u16>,
}

/// A question under way: how far it has come, and the source that it holds.
pub struct Exchange {
    pub phase: QueryPhase,
    pub held: Option<InputSource>,
}

impl LayoutWorld {
    /// A new question: it begins with the current source and holds none.
    pub open spec fn start(self) -> Exchange {
        Exchange { phase: QueryPhase::Copying(InputSource::Current), held: None }
    }

    /// There is such a source, and it has a layout.
    pub open spec fn offers(self, source: InputSource) -> bool {
        self.sources.contains(source) && self.layouts.contains(source)
    }

    /// What comes back when something is done while a source is held. Where nothing
    /// is to be done, any reply does.
    pub open spec fn reply(self, held: Option<InputSource>, action: QueryAction) -> QueryReply {
        match action {
            QueryAction::Copy(source) => QueryReply::Copied(self.sources.contains(source)),
            QueryAction::ReadLayout => QueryReply::Layout(
                held is Some && self.layouts.contains(held->0),
            ),
            QueryAction::ReadBytes => QueryReply::Bytes(
                held is Some && self.bytes.contains(held->0),
            ),
            QueryAction::Translate(request) => QueryReply::Translated(
                (self.units)(held->0, request),
            ),
            QueryAction::Release => QueryReply::Released,
            QueryAction::Finish(_) => QueryReply::Released,
        }
    }

    /// The source that is held once something was done.
    pub open spec fn held_after(self, held: Option<InputSource>, action: QueryAction) -> Option<
        InputSource,
    > {
        match action {
            QueryAction::Copy(source) => if self.sources.contains(source) {
                Some(source)
            } else {
                held
            },
            QueryAction::Release => None,
            _ => held,
        }
    }

    /// One round: what the question asks for is done, and what came back is taken.
    pub open spec fn round(self, keycode: u32, exchange: Exchange) -> Exchange {
        let action = action_in(exchange.phase, keycode);
        Exchange {
            phase: next_phase(exchange.phase, self.reply(exchange.held, action)),
            held: self.held_after(exchange.held, action),
        }
    }

    /// The question after so many rounds.
    pub open spec fn after_rounds(self, keycode: u32, exchange: Exchange, rounds: nat) -> Exchange
        decreases rounds,
    {
        if rounds == 0 {
            exchange
        } else {
            self.after_rounds(keycode, self.round(keycode, exchange), (rounds - 1) as nat)
        }
    }

    /// How far a new question has come after so many rounds.
    pub open spec fn phase_after_rounds(self, keycode: u32, rounds: nat) -> QueryPhase {
        self.after_rounds(keycode, self.start(), rounds).phase
    }

    /// The first source that offers a layout.
    pub open spec fn first_offer(self) -> Option<InputSource> {
        if self.offers(InputSource::Current) {
            Some(InputSource::Current)
        } else if self.offers(InputSource::CurrentLayout) {
            Some(InputSource::CurrentLayout)
        } else if self.offers(InputSource::AsciiCapable) {
            Some(InputSource::AsciiCapable)
        } else {
            None
        }
    }

    /// The character of a key: what the key alone, going down without modifiers and
    /// without dead keys, comes to under the first layout that a source offers.
    /// There is none without such a layout, nor if that layout has no bytes.
    pub open spec fn answer(self, keycode: u32) -> Option<char> {
        match self.first_offer() {
            Some(source) => if self.bytes.contains(source) {
                first_char(
                    (self.units)(
                        source,
                        TranslateRequest {
                            code: (keycode % 0x10000) as u16,
                            key_action: 0,
                            modifier_state: 0,
                            options: 0x8000_0000,
                            max_length: 4,
                        },
                    )@,
                )
            } else {
                None
            },
            None => None,
        }
    }
}

/// A question that has finished stays so.
proof fn lemma_finished_stays(
    world: LayoutWorld,
    keycode: u32,
    answer: Option<char>,
    rounds: nat,
)
    ensures
        ({
            let finished = Exchange { phase: QueryPhase::Finished(answer), held: None };
            world.after_rounds(keycode, finished, rounds) == finished
        }),
    decreases rounds,
{
    let finished = Exchange { phase: QueryPhase::Finished(answer), held: None };
    if rounds > 0 {
        assert(world.round(keycode, finished) == finished);
        lemma_finished_stays(world, keycode, answer, (rounds - 1) as nat);
    }
}

/// More rounds are more rounds after the first ones.
proof fn lemma_rounds_add(
    world: LayoutWorld,
    keycode: u32,
    exchange: Exchange,
    first: nat,
    more: nat,
)
    ensures
        world.after_rounds(keycode, exchange, first + more) == world.after_rounds(
            keycode,
            world.after_rounds(keycode, exchange, first),
            more,
        ),
    decreases first,
{
    if first > 0 {
        lemma_rounds_add(
            world,
            keycode,
            world.round(keycode, exchange),
            (first - 1) as nat,
            more,
        );
    }
}

/// After eleven rounds at most a question is answered: by the character that the
/// key asked about has under the first layout that a source offers, if it has one
/// there. No source is held then, and the answer is what the question says.
pub proof fn questions_are_answered(world: LayoutWorld, keycode: u32, rounds: nat)
    requires
        rounds >= 11,
    ensures
        world.phase_after_rounds(keycode, rounds) == QueryPhase::Finished(world.answer(keycode)),
        world.after_rounds(keycode, world.start(), rounds).held is None,
        action_in(world.phase_after_rounds(keycode, rounds), keycode) == QueryAction::Finish(
            world.answer(keycode),
        ),
{
    let start = world.start();
    let finished = Exchange { phase: QueryPhase::Finished(world.answer(keycode)), held: None };
    assert(world.after_rounds(keycode, start, 11) == finished) by {
        reveal_with_fuel(LayoutWorld::after_rounds, 12);
    }
    lemma_rounds_add(world, keycode, start, 11, (rounds - 11) as nat);
    lemma_finished_stays(world, keycode, world.answer(keycode), (rounds - 11) as nat);
}

/// A translation is asked about the very key of the question: the key alone, going
/// down, without modifiers or dead keys, for at most four units. So different keys
/// are never asked about alike.
pub proof fn translations_name_the_key(source: InputSource, keycode: u32, other: u32)
    requires
        keycode < 0x10000,
        other < 0x10000,
    ensures
        action_in(QueryPhase::Translating(source), keycode) is Translate,
        ({
            let request = action_in(QueryPhase::Translating(source), keycode)->Translate_0;
            &&& request.code == keycode
            &&& request.key_action == 0
            &&& request.modifier_state == 0
            &&& request.options == 0x8000_0000
            &&& request.max_length == 4
        }),
        action_in(QueryPhase::Translating(source), keycode) == action_in(
            QueryPhase::Translating(source),
            other,
        ) ==> keycode == other,
{
}

/// Only a translation depends on the key that is asked about.
pub proof fn other_steps_ignore_the_key(phase: QueryPhase, keycode: u32, other: u32)
    requires
        !(phase is Translating),
    ensures
        action_in(phase, keycode) == action_in(phase, other),
{
}

/// A reply that does not answer what was asked changes nothing.
pub proof fn unasked_replies_change_nothing(phase: QueryPhase, keycode: u32, reply: QueryReply)
    requires
        match action_in(phase, keycode) {
            QueryAction::Copy(_) => !(reply is Copied),
            QueryAction::ReadLayout => !(reply is Layout),
            QueryAction::ReadBytes => !(reply is Bytes),
            QueryAction::Translate(_) => !(reply is Translated),
            QueryAction::Release => !(reply is Released),
            QueryAction::Finish(_) => true,
        },
    ensures
        next_phase(phase, reply) == phase,
{
}

/// Every reply that answers what was asked brings a question one step further.
pub proof fn asked_replies_lead_on(phase: QueryPhase, keycode: u32, reply: QueryReply)
    requires
        match action_in(phase, keycode) {
            QueryAction::Copy(_) => reply is Copied,
            QueryAction::ReadLayout => reply is Layout,
            QueryAction::ReadBytes => reply is Bytes,
            QueryAction::Translate(_) => reply is Translated,
            QueryAction::Release => reply is Released,
            QueryAction::Finish(_) => false,
        },
    ensures
        next_phase(phase, reply) != phase,
{
}

/// The unit is half of a surrogate pair.
pub open spec fn is_surrogate(unit: u16) -> bool {
    0xD800 <= unit <= 0xDFFF
}

/// The unit at `k`, if it is a surrogate, stands in a pair: a high one is followed
/// by a low one, and a low one preceded by a high one.
pub open spec fn is_paired_at(units: Seq<u16>, k: int) -> bool {
    &&& 0xD800 <= units[k] <= 0xDBFF ==> k + 1 < units.len() && 0xDC00 <= units[k + 1] <= 0xDFFF
    &&& 0xDC00 <= units[k] <= 0xDFFF ==> k > 0 && 0xD800 <= units[k - 1] <= 0xDBFF
}

/// No surrogate stands alone.
pub open spec fn surrogates_are_paired(units: Seq<u16>) -> bool {
    forall|k: int| 0 <= k < units.len() ==> #[trigger] is_paired_at(units, k)
}

/// Whether the surrogates are paired is decided by the units that follow, once the
/// first character is taken off.
proof fn lemma_rest_is_paired(units: Seq<u16>, taken: int)
    requires
        0 < taken <= units.len(),
        forall|k: int| 0 <= k < taken ==> #[trigger] is_paired_at(units, k),
        !(0xD800 <= units[taken - 1] <= 0xDBFF),
    ensures
        surrogates_are_paired(units) <==> surrogates_are_paired(units.skip(taken)),
{
    let rest = units.skip(taken);
    if surrogates_are_paired(rest) {
        assert forall|k: int| 0 <= k < units.len() implies #[trigger] is_paired_at(units, k) by {
            if k >= taken {
                assert(is_paired_at(rest, k - taken));
            }
        }
    }
    if surrogates_are_paired(units) {
        assert forall|k: int| 0 <= k < rest.len() implies #[trigger] is_paired_at(rest, k) by {
            assert(is_paired_at(units, k + taken));
        }
    }
}

/// Units encode a text exactly if no surrogate stands alone.
pub proof fn text_has_no_lone_surrogate(units: Seq<u16>)
    ensures
        utf16_text(units) is Some <==> surrogates_are_paired(units),
    decreases units.len(),
{
    if units.len() > 0 {
        if 0xD800 <= units[0] <= 0xDBFF && units.len() > 1 && 0xDC00 <= units[1] <= 0xDFFF {
            assert(is_paired_at(units, 0) && is_paired_at(units, 1));
            text_has_no_lone_surrogate(units.skip(2));
            lemma_rest_is_paired(units, 2);
        } else if is_surrogate(units[0]) {
            assert(!is_paired_at(units, 0));
        } else {
            text_has_no_lone_surrogate(units.skip(1));
            lemma_rest_is_paired(units, 1);
        }
    }
}

/// The first character of what a key typed is there exactly if the key typed
/// something and no surrogate in it stands alone. It is the character of the first
/// unit, or of the first two if they are a surrogate pair, whatever follows.
pub proof fn first_char_is_of_the_first_units(units: Seq<u16>)
    ensures
        first_char(units) is Some <==> units.len() > 0 && surrogates_are_paired(units),
        first_char(units) is Some && !is_surrogate(units[0]) ==> first_char(units)->0 as int
            == units[0],
        first_char(units) is Some && is_surrogate(units[0]) ==> first_char(units)->0 as int
            == 0x10000 + (units[0] - 0xD800) * 0x400 + (units[1] - 0xDC00),
{
    text_has_no_lone_surrogate(units);
}

} // verus!

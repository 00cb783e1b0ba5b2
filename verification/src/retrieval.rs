//! The retrieval pipeline: memory cache first, then the durable mirror where
//! one is configured, then the origin. The tiers behind the memory cache do
//! I/O, so the pipeline is a state machine: it says which tier to ask next,
//! takes that tier's answer, and in the end says what to deliver and which
//! faster tiers to fill.

use crate::cache::{lookup, Cache, CacheEntry, Entries, ImageCacheItem};
use crate::error::ErrorResponse;
use crate::format::{format_from_path, resolved_format};
use crate::repository::ImageRepository;
use vstd::prelude::*;

verus! {

/// One layer of the fallback chain, fastest first.
#[derive(Debug, Clone, Copy, PartialEq, Eq, Structural)]
pub enum Tier {
    Memory,
    Mirror,
    Origin,
}

/// The image to hand to the caller, and the tiers to fill with it afterwards.
#[derive(Debug)]
pub struct Delivery {
    pub payload: Vec<u8>,
    pub format: image::ImageFormat,
    /// The tier that answered.
    pub source: Tier,
    /// Whether the payload is to be written into the memory cache.
    pub fill_memory: bool,
    /// Whether the payload is to be written into the durable mirror.
    pub fill_mirror: bool,
}

/// What the pipeline wants done next.
#[derive(Debug)]
pub enum Next {
    /// Ask this tier for the key and hand its answer to `Pipeline::after`.
    Ask(Tier),
    /// Answer the request with this image, then fill the tiers it flags.
    Deliver(Delivery),
    /// Answer the request with this error.
    Fail(ErrorResponse),
}

/// A delivery as a mathematical value.
pub ghost struct Served {
    pub payload: Seq<u8>,
    pub format: image::ImageFormat,
    pub source: Tier,
    pub fill_memory: bool,
    pub fill_mirror: bool,
}

/// A next step as a mathematical value.
pub ghost enum Plan {
    Ask(Tier),
    Deliver(Served),
    Fail(ErrorResponse),
}

impl View for Delivery {
    type V = Served;

    open spec fn view(&self) -> Served {
        Served {
            payload: self.payload@,
            format: self.format,
            source: self.source,
            fill_memory: self.fill_memory,
            fill_mirror: self.fill_mirror,
        }
    }
}

impl Clone for Delivery {
    fn clone(&self) -> (copy: Self)
        ensures
            copy@ == self@,
    {
        let payload = self.payload.clone();
        assert(payload@ =~= self.payload@);
        Delivery {
            payload,
            format: self.format,
            source: self.source,
            fill_memory: self.fill_memory,
            fill_mirror: self.fill_mirror,
        }
    }
}

impl View for Next {
    type V = Plan;

    open spec fn view(&self) -> Plan {
        match self {
            Next::Ask(tier) => Plan::Ask(*tier),
            Next::Deliver(delivery) => Plan::Deliver(delivery@),
            Next::Fail(error) => Plan::Fail(*error),
        }
    }
}

/// What a tier answered, as a mathematical value.
pub type Reply = Result<Seq<u8>, ErrorResponse>;

pub open spec fn reply_view(reply: Result<Vec<u8>, ErrorResponse>) -> Reply {
    match reply {
        Ok(bytes) => Ok(bytes@),
        Err(error) => Err(error),
    }
}

/// The tier to ask after a miss at `tier`.
pub open spec fn next_tier(tier: Tier, mirror: bool) -> Tier {
    match tier {
        Tier::Memory => if mirror {
            Tier::Mirror
        } else {
            Tier::Origin
        },
        Tier::Mirror => Tier::Origin,
        Tier::Origin => Tier::Origin,
    }
}

/// The error that the caller sees when the origin failed with `error`. A
/// miss is a signal between tiers and never reaches the caller: from the
/// origin it means that the image does not exist.
pub open spec fn surfaced(error: ErrorResponse) -> ErrorResponse {
    match error {
        ErrorResponse::ImageNotFoundInCacheError {} => ErrorResponse::ImageNotFoundError {},
        _ => error,
    }
}

/// The image that `tier` found for `key`, with the faster tiers to fill: the
/// memory cache unless it answered itself, the mirror if the origin answered
/// and a mirror is configured.
pub open spec fn served_by(tier: Tier, mirror: bool, key: Seq<char>, payload: Seq<u8>) -> Served {
    Served {
        payload,
        format: resolved_format(key),
        source: tier,
        fill_memory: tier != Tier::Memory,
        fill_mirror: tier == Tier::Origin && mirror,
    }
}

/// The first step for `key`: a hit in the memory cache is delivered as it
/// is stored, and a miss sends the pipeline to the next tier.
pub open spec fn plan_start(entries: Entries, mirror: bool, key: Seq<char>) -> Plan {
    match lookup(entries, key) {
        Some(entry) => Plan::Deliver(
            Served {
                payload: entry.payload,
                format: entry.format,
                source: Tier::Memory,
                fill_memory: false,
                fill_mirror: false,
            },
        ),
        None => Plan::Ask(next_tier(Tier::Memory, mirror)),
    }
}

/// The step after `tier` answered `reply`: bytes are delivered; an error of
/// the origin ends the request; an error of any other tier, whatever it is,
/// counts as a miss and sends the pipeline to the next tier.
pub open spec fn plan_after(tier: Tier, mirror: bool, key: Seq<char>, reply: Reply) -> Plan {
    match reply {
        Ok(payload) => Plan::Deliver(served_by(tier, mirror, key, payload)),
        Err(error) => if tier == Tier::Origin {
            Plan::Fail(surfaced(error))
        } else {
            Plan::Ask(next_tier(tier, mirror))
        },
    }
}

/// What the tiers behind the memory cache answer when they are asked.
pub ghost struct Replies {
    pub mirror: Reply,
    pub origin: Reply,
}

impl Replies {
    /// The answer of `tier`. The memory cache is asked by lookup only, so as
    /// a tier that is asked it has nothing.
    pub open spec fn of(self, tier: Tier) -> Reply {
        match tier {
            Tier::Memory => Err(ErrorResponse::ImageNotFoundInCacheError {}),
            Tier::Mirror => self.mirror,
            Tier::Origin => self.origin,
        }
    }
}

/// How a retrieval ended, and the tiers that were asked on the way, in order.
pub ghost struct Outcome {
    pub result: Result<Served, ErrorResponse>,
    pub asked: Seq<Tier>,
}

/// How many tiers can still be asked once `plan` is carried out.
pub open spec fn asks_left(plan: Plan) -> nat {
    match plan {
        Plan::Ask(Tier::Memory) => 3,
        Plan::Ask(Tier::Mirror) => 2,
        Plan::Ask(Tier::Origin) => 1,
        _ => 0,
    }
}

/// Carries out `plan` to its end: each tier that the pipeline asks answers
/// as `replies` says.
pub open spec fn run(
    plan: Plan,
    asked: Seq<Tier>,
    mirror: bool,
    key: Seq<char>,
    replies: Replies,
) -> Outcome
    decreases asks_left(plan),
{
    match plan {
        Plan::Deliver(served) => Outcome { result: Ok(served), asked },
        Plan::Fail(error) => Outcome { result: Err(error), asked },
        Plan::Ask(tier) => run(
            plan_after(tier, mirror, key, replies.of(tier)),
            asked.push(tier),
            mirror,
            key,
            replies,
        ),
    }
}

/// The whole retrieval of `key` from a memory cache that holds `entries`.
pub open spec fn resolution(entries: Entries, mirror: bool, key: Seq<char>, replies: Replies) -> Outcome {
    run(plan_start(entries, mirror, key), Seq::empty(), mirror, key, replies)
}

/// The memory cache after the write-back of `served` at time `now`: the
/// payload enters under `key`, stamped with `now`, in place of any entry that
/// was there; a delivery from the memory cache itself changes nothing.
pub open spec fn filled(entries: Entries, key: Seq<char>, served: Served, now: u64) -> Entries {
    if served.fill_memory {
        entries.insert(key, CacheEntry { time: now, format: served.format, payload: served.payload })
    } else {
        entries
    }
}

/// The memory cache once a retrieval that ended in `result` has been written
/// back at time `now`. A failed retrieval writes nothing.
pub open spec fn settled(
    entries: Entries,
    key: Seq<char>,
    result: Result<Served, ErrorResponse>,
    now: u64,
) -> Entries {
    match result {
        Ok(served) => filled(entries, key, served, now),
        Err(_) => entries,
    }
}

pub open spec fn result_view(result: Result<Delivery, ErrorResponse>) -> Result<
    Served,
    ErrorResponse,
> {
    match result {
        Ok(delivery) => Ok(delivery@),
        Err(error) => Err(error),
    }
}

/// The retrieval pipeline and its one setting.
#[derive(Debug, Clone, Copy)]
pub struct Pipeline {
    /// Whether a durable mirror is configured.
    pub mirror: bool,
}

impl Pipeline {
    pub fn new(mirror: bool) -> (pipeline: Pipeline)
        ensures
            pipeline.mirror == mirror,
    {
        Pipeline { mirror }
    }

    /// The tier to ask after a miss at `tier`.
    pub fn tier_after(&self, tier: Tier) -> (next: Tier)
        ensures
            next == next_tier(tier, self.mirror),
    {
        match tier {
            Tier::Memory => if self.mirror {
                Tier::Mirror
            } else {
                Tier::Origin
            },
            Tier::Mirror => Tier::Origin,
            Tier::Origin => Tier::Origin,
        }
    }

    /// Begins the retrieval of `key` with a lookup in the memory cache.
    pub fn start(&self, cache: &Cache, key: &str) -> (next: Next)
        ensures
            next@ == plan_start(cache@, self.mirror, key@),
    {
        match cache.read_image(key) {
            Some(item) => {
                let payload = item.image.clone();
                assert(payload@ =~= item.image@);
                Next::Deliver(
                    Delivery {
                        payload,
                        format: item.format,
                        source: Tier::Memory,
                        fill_memory: false,
                        fill_mirror: false,
                    },
                )
            },
            None => Next::Ask(self.tier_after(Tier::Memory)),
        }
    }

    /// Continues the retrieval of `key` with what `tier` answered.
    pub fn after(&self, tier: Tier, key: &str, reply: Result<Vec<u8>, ErrorResponse>) -> (next:
        Next)
        ensures
            next@ == plan_after(tier, self.mirror, key@, reply_view(reply)),
    {
        match reply {
            Ok(payload) => Next::Deliver(
                Delivery {
                    payload,
                    format: format_from_path(key),
                    source: tier,
                    fill_memory: !matches!(tier, Tier::Memory),
                    fill_mirror: matches!(tier, Tier::Origin) && self.mirror,
                },
            ),
            Err(error) => match tier {
                Tier::Origin => Next::Fail(surface(error)),
                _ => Next::Ask(self.tier_after(tier)),
            },
        }
    }
}

/// Whether asking `tier` reaches no repository: the memory cache is asked by
/// lookup only, and a mirror may be missing.
pub open spec fn unreachable_tier(tier: Tier, mirror: bool) -> bool {
    tier == Tier::Memory || (tier == Tier::Mirror && !mirror)
}

/// Asks `tier` for `key`. A tier that cannot be reached answers with a miss;
/// what a repository answers is its own to say.
fn ask<M: ImageRepository, O: ImageRepository>(
    tier: Tier,
    mirror: Option<&M>,
    origin: &O,
    key: &str,
) -> (reply: Result<Vec<u8>, ErrorResponse>)
    ensures
        unreachable_tier(tier, mirror is Some) ==> reply == Err::<Vec<u8>, ErrorResponse>(
            ErrorResponse::ImageNotFoundInCacheError {},
        ),
{
    match tier {
        Tier::Memory => Err(ErrorResponse::ImageNotFoundInCacheError {}),
        Tier::Mirror => match mirror {
            Some(mirror) => mirror.read_image(key),
            None => Err(ErrorResponse::ImageNotFoundInCacheError {}),
        },
        Tier::Origin => origin.read_image(key),
    }
}

/// Retrieves the image under `key`: from the memory cache, else from the
/// mirror if there is one, else from the origin. The memory cache is only
/// read: the delivery says which tiers to fill, and `write_back` fills the
/// memory cache once the caller has its answer.
///
/// What the mirror and the origin answer is theirs to decide. Whatever they
/// answer, the result is that of the pipeline's rules applied to it; and a
/// key that the memory cache holds is delivered from there without asking
/// them.
pub fn resolve<M: ImageRepository, O: ImageRepository>(
    cache: &Cache,
    mirror: Option<&M>,
    origin: &O,
    key: &str,
) -> (result: Result<Delivery, ErrorResponse>)
    ensures
        exists|replies: Replies|
            result_view(result) == (#[trigger] resolution(
                cache@,
                mirror is Some,
                key@,
                replies,
            )).result,
        lookup(cache@, key@) is Some ==> result_view(result) == Ok::<Served, ErrorResponse>(
            plan_start(cache@, mirror is Some, key@)->Deliver_0,
        ),
{
    let pipeline = Pipeline::new(mirror.is_some());
    let ghost miss: Reply = Err(ErrorResponse::ImageNotFoundInCacheError {});
    reveal_with_fuel(run, 4);
    match pipeline.start(cache, key) {
        Next::Deliver(delivery) => {
            assert(result_view(Ok(delivery)) == resolution(
                cache@,
                mirror is Some,
                key@,
                Replies { mirror: miss, origin: miss },
            ).result);
            Ok(delivery)
        },
        Next::Fail(error) => {
            // a lookup in the memory cache fails no request
            assert(false);
            Err(error)
        },
        Next::Ask(first) => {
            let reply = ask(first, mirror, origin, key);
            let ghost first_reply = reply_view(reply);
            match pipeline.after(first, key, reply) {
                Next::Deliver(delivery) => {
                    assert(result_view(Ok(delivery)) == resolution(
                        cache@,
                        mirror is Some,
                        key@,
                        Replies { mirror: first_reply, origin: first_reply },
                    ).result);
                    Ok(delivery)
                },
                Next::Fail(error) => {
                    assert(result_view(Err(error)) == resolution(
                        cache@,
                        mirror is Some,
                        key@,
                        Replies { mirror: first_reply, origin: first_reply },
                    ).result);
                    Err(error)
                },
                Next::Ask(second) => {
                    let reply = ask(second, mirror, origin, key);
                    let ghost second_reply = reply_view(reply);
                    let ghost replies = Replies { mirror: first_reply, origin: second_reply };
                    match pipeline.after(second, key, reply) {
                        Next::Deliver(delivery) => {
                            assert(result_view(Ok(delivery)) == resolution(
                                cache@,
                                mirror is Some,
                                key@,
                                replies,
                            ).result);
                            Ok(delivery)
                        },
                        Next::Fail(error) => {
                            assert(result_view(Err(error)) == resolution(
                                cache@,
                                mirror is Some,
                                key@,
                                replies,
                            ).result);
                            Err(error)
                        },
                        Next::Ask(_) => {
                            // the second tier that is asked is the origin, the last one
                            assert(false);
                            Err(ErrorResponse::ImageNotFoundError {})
                        },
                    }
                },
            }
        },
    }
}

/// Fills the memory cache with a delivery, stamped with the time `now` at
/// which it enters. A delivery that came from the memory cache is not
/// written again.
pub fn write_back(cache: &mut Cache, key: &str, delivery: &Delivery, now: u64)
    requires
        old(cache).wf(),
    ensures
        final(cache).wf(),
        final(cache)@ == filled(old(cache)@, key@, delivery@, now),
{
    if delivery.fill_memory {
        let image = delivery.payload.clone();
        assert(image@ =~= delivery.payload@);
        cache.write_image(key, ImageCacheItem { time: now, format: delivery.format, image });
    }
}

/// The error that the caller sees when the origin failed with `error`.
pub fn surface(error: ErrorResponse) -> (seen: ErrorResponse)
    ensures
        seen == surfaced(error),
        seen.is_terminal(),
{
    match error {
        ErrorResponse::ImageNotFoundInCacheError {} => ErrorResponse::ImageNotFoundError {},
        _ => error,
    }
}

/// A key that the memory cache holds is delivered from there, as it is
/// stored, and no other tier is asked.
pub proof fn lemma_hit_asks_nobody(entries: Entries, mirror: bool, key: Seq<char>, replies: Replies)
    requires
        lookup(entries, key) is Some,
    ensures
        resolution(entries, mirror, key, replies).asked == Seq::<Tier>::empty(),
        resolution(entries, mirror, key, replies).result is Ok,
        resolution(entries, mirror, key, replies).result->Ok_0.payload == entries[key].payload,
        resolution(entries, mirror, key, replies).result->Ok_0.format == entries[key].format,
        settled(entries, key, resolution(entries, mirror, key, replies).result, 0) == entries,
{
    reveal_with_fuel(run, 2);
}

/// Fallback: when the memory cache and the mirror both miss and the origin
/// returns bytes, the retrieval delivers those bytes with the format that the
/// key names, and flags the faster tiers for filling. Once the write-back
/// has been made, at whatever time, the next retrieval of the key delivers
/// the same bytes and format from the memory cache, whatever the other tiers
/// would answer, and asks none of them.
pub proof fn lemma_fallback_fills_the_cache(
    entries: Entries,
    mirror: bool,
    key: Seq<char>,
    replies: Replies,
    payload: Seq<u8>,
    now: u64,
    later: Replies,
)
    requires
        lookup(entries, key) is None,
        replies.mirror is Err,
        replies.origin == Ok::<Seq<u8>, ErrorResponse>(payload),
    ensures
        ({
            let first = resolution(entries, mirror, key, replies);
            let second = resolution(settled(entries, key, first.result, now), mirror, key, later);
            &&& first.result == Ok::<Served, ErrorResponse>(
                served_by(Tier::Origin, mirror, key, payload),
            )
            &&& first.result->Ok_0.payload == payload
            &&& first.result->Ok_0.format == resolved_format(key)
            &&& first.result->Ok_0.fill_memory
            &&& first.result->Ok_0.fill_mirror == mirror
            &&& second.result is Ok
            &&& second.result->Ok_0.payload == payload
            &&& second.result->Ok_0.format == resolved_format(key)
            &&& second.result->Ok_0.source == Tier::Memory
            &&& second.asked == Seq::<Tier>::empty()
        }),
{
    reveal_with_fuel(run, 4);
}

/// A hit in the mirror is delivered without asking the origin, and fills the
/// memory cache only.
pub proof fn lemma_mirror_hit_spares_the_origin(
    entries: Entries,
    key: Seq<char>,
    replies: Replies,
    payload: Seq<u8>,
)
    requires
        lookup(entries, key) is None,
        replies.mirror == Ok::<Seq<u8>, ErrorResponse>(payload),
    ensures
        resolution(entries, true, key, replies).result == Ok::<Served, ErrorResponse>(
            served_by(Tier::Mirror, true, key, payload),
        ),
        resolution(entries, true, key, replies).asked == seq![Tier::Mirror],
        !resolution(entries, true, key, replies).result->Ok_0.fill_mirror,
{
    reveal_with_fuel(run, 3);
    assert(resolution(entries, true, key, replies).asked =~= seq![Tier::Mirror]);
}

/// Miss propagation: when the memory cache and the mirror miss and the origin
/// fails, the retrieval ends with the origin's error, and no entry for the key
/// enters the memory cache. An origin that reports the image as not found
/// makes the retrieval end with exactly that.
pub proof fn lemma_origin_failure_propagates(
    entries: Entries,
    mirror: bool,
    key: Seq<char>,
    replies: Replies,
    now: u64,
)
    requires
        lookup(entries, key) is None,
        replies.mirror is Err,
        replies.origin is Err,
    ensures
        ({
            let outcome = resolution(entries, mirror, key, replies);
            &&& outcome.result == Err::<Served, ErrorResponse>(surfaced(replies.origin->Err_0))
            &&& replies.origin->Err_0 is ImageNotFoundError ==> outcome.result == Err::<
                Served,
                ErrorResponse,
            >(ErrorResponse::ImageNotFoundError {})
            &&& settled(entries, key, outcome.result, now) == entries
            &&& lookup(settled(entries, key, outcome.result, now), key) is None
        }),
{
    reveal_with_fuel(run, 4);
}

/// A retrieval never ends with the miss signal that tiers use among
/// themselves, and a retrieval that fails leaves the memory cache alone.
pub proof fn lemma_failure_is_terminal(
    entries: Entries,
    mirror: bool,
    key: Seq<char>,
    replies: Replies,
    now: u64,
)
    ensures
        resolution(entries, mirror, key, replies).result is Err ==> {
            &&& resolution(entries, mirror, key, replies).result->Err_0.is_terminal()
            &&& settled(entries, key, resolution(entries, mirror, key, replies).result, now)
                == entries
        },
{
    reveal_with_fuel(run, 4);
}

/// Cold retrievals agree: two retrievals of one key that both find the memory
/// cache and the mirror empty, and to which the origin returns the same
/// bytes, deliver the same bytes and format. Their write-backs, in this
/// order or the other, leave one entry for the key, which holds those bytes;
/// every other key keeps what it had.
pub proof fn lemma_cold_retrievals_agree(
    entries: Entries,
    mirror: bool,
    key: Seq<char>,
    one: Replies,
    other: Replies,
    payload: Seq<u8>,
    first_at: u64,
    second_at: u64,
)
    requires
        lookup(entries, key) is None,
        one.mirror is Err,
        other.mirror is Err,
        one.origin == Ok::<Seq<u8>, ErrorResponse>(payload),
        other.origin == Ok::<Seq<u8>, ErrorResponse>(payload),
    ensures
        ({
            let a = resolution(entries, mirror, key, one).result;
            let b = resolution(entries, mirror, key, other).result;
            let both = settled(settled(entries, key, a, first_at), key, b, second_at);
            &&& a == b
            &&& a is Ok
            &&& a->Ok_0.payload == payload
            &&& lookup(both, key) is Some
            &&& lookup(both, key)->0.payload == payload
            &&& lookup(both, key)->0.format == resolved_format(key)
            &&& both.dom() == entries.dom().insert(key)
            &&& forall|elsewhere: Seq<char>|
                elsewhere != key ==> lookup(both, elsewhere) == lookup(entries, elsewhere)
        }),
{
    reveal_with_fuel(run, 4);
    let a = resolution(entries, mirror, key, one).result;
    let b = resolution(entries, mirror, key, other).result;
    let both = settled(settled(entries, key, a, first_at), key, b, second_at);
    assert(both.dom() =~= entries.dom().insert(key));
}

} // verus!

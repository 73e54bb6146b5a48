use crate::particles::{merged, particle_of, Particle, ParticleInit, ParticleSystem};
use crate::settings::Settings;
use vstd::prelude::*;
use vstd::string::*;

verus! {

/// Points for a finished scan.
pub const SCAN_BONUS: u32 = 500;

/// Milliseconds for which the result of a scan is shown.
pub const SCAN_MESSAGE_MS: i32 = 3000;

/// Whether a background worker owes a result.
#[derive(Clone, Copy, Debug, PartialEq, Eq, Structural)]
pub enum BridgeState {
    Idle,
    Pending,
}

/// The frame loop's side of a channel to a background worker: it counts the
/// requests that have been sent and not yet answered.
#[derive(Clone, Copy, Debug)]
pub struct Bridge {
    pub outstanding: usize,
}

impl Bridge {
    /// Idle when nothing is outstanding, else pending.
    pub open spec fn state_spec(&self) -> BridgeState {
        if self.outstanding == 0 {
            BridgeState::Idle
        } else {
            BridgeState::Pending
        }
    }

    /// A bridge over which nothing has been sent.
    pub fn new() -> (bridge: Bridge)
        ensures
            bridge.outstanding == 0,
            bridge.state_spec() == BridgeState::Idle,
    {
        Bridge { outstanding: 0 }
    }

    /// Whether a result is outstanding.
    pub fn state(&self) -> (state: BridgeState)
        ensures
            state == self.state_spec(),
    {
        if self.outstanding == 0 {
            BridgeState::Idle
        } else {
            BridgeState::Pending
        }
    }

    /// Notes a request to a worker that takes any number of them.
    pub fn submit(&mut self)
        requires
            old(self).outstanding < usize::MAX,
        ensures
            final(self).outstanding == old(self).outstanding + 1,
            final(self).state_spec() == BridgeState::Pending,
    {
        self.outstanding += 1;
    }

    /// Notes a request to a worker that takes one at a time: it is refused
    /// while a result is outstanding.
    pub fn try_start(&mut self) -> (started: bool)
        ensures
            started == (old(self).state_spec() == BridgeState::Idle),
            final(self).outstanding == (if started { 1 } else { old(self).outstanding }),
            final(self).state_spec() == BridgeState::Pending,
    {
        if self.outstanding == 0 {
            self.outstanding = 1;
            true
        } else {
            false
        }
    }

    /// Notes what a poll has found: a result answers one outstanding request;
    /// one that nothing asked for is passed over.
    pub fn observe(&mut self, arrived: bool) -> (taken: bool)
        ensures
            taken == (arrived && old(self).outstanding > 0),
            final(self).outstanding == (if taken {
                old(self).outstanding - 1
            } else {
                old(self).outstanding as int
            }),
    {
        if arrived && self.outstanding > 0 {
            self.outstanding -= 1;
            true
        } else {
            false
        }
    }
}

/// The requests that are outstanding after `sent` requests and `answered`
/// results, where no result comes before its request.
pub proof fn lemma_bridge_settles(before: Bridge, sent: nat, answered: nat)
    requires
        answered <= before.outstanding + sent <= usize::MAX,
    ensures
        (Bridge { outstanding: (before.outstanding + sent - answered) as usize }).state_spec()
            == BridgeState::Idle <==> answered == before.outstanding + sent,
{
}

/// The live particles after one poll per frame: in a frame with an arrival
/// the batch is merged in, in a frame without one nothing changes.
pub open spec fn polled(live: Seq<Particle>, arrivals: Seq<Option<Seq<ParticleInit>>>) -> Seq<
    Particle,
>
    decreases arrivals.len(),
{
    if arrivals.len() == 0 {
        live
    } else {
        let before = polled(live, arrivals.drop_last());
        match arrivals.last() {
            Some(batch) => before + batch.map_values(|init: ParticleInit| particle_of(init)),
            None => before,
        }
    }
}

/// The batches among the arrivals, in their order.
pub open spec fn arrived_batches(arrivals: Seq<Option<Seq<ParticleInit>>>) -> Seq<
    Seq<ParticleInit>,
>
    decreases arrivals.len(),
{
    if arrivals.len() == 0 {
        Seq::empty()
    } else {
        let front = arrived_batches(arrivals.drop_last());
        match arrivals.last() {
            Some(batch) => front.push(batch),
            None => front,
        }
    }
}

/// However many frames pass before each batch arrives, polling every frame
/// gives what merging the batches in their order of arrival gives.
pub proof fn lemma_polling_merges_all(
    live: Seq<Particle>,
    arrivals: Seq<Option<Seq<ParticleInit>>>,
)
    ensures
        polled(live, arrivals) == merged(live, arrived_batches(arrivals)),
    decreases arrivals.len(),
{
    if arrivals.len() > 0 {
        lemma_polling_merges_all(live, arrivals.drop_last());
        let front = arrived_batches(arrivals.drop_last());
        match arrivals.last() {
            Some(batch) => {
                assert(front.push(batch).drop_last() =~= front);
            },
            None => {},
        }
    }
}

/// One poll of the particle worker: a batch that has arrived joins the live
/// particles; without one nothing changes.
pub fn poll_particles(
    bridge: &mut Bridge,
    system: &mut ParticleSystem,
    arrived: Option<Vec<ParticleInit>>,
)
    requires
        old(system).wf(),
    ensures
        final(system).wf(),
        arrived is Some ==> final(system)@ == old(system)@ + arrived->Some_0@.map_values(
            |init: ParticleInit| particle_of(init),
        ),
        arrived is None ==> final(system)@ == old(system)@,
        final(bridge).outstanding == (if arrived is Some && old(bridge).outstanding > 0 {
            old(bridge).outstanding - 1
        } else {
            old(bridge).outstanding as int
        }),
{
    match arrived {
        Some(batch) => {
            system.spawn_batch(batch);
            bridge.observe(true);
        },
        None => {},
    }
}

/// One poll of the settings loader, which is asked once, at startup: loaded
/// settings take the place of the current ones; a failure leaves them as they
/// are and hands its reason back.
pub fn poll_settings(
    bridge: &mut Bridge,
    current: &mut Settings,
    arrived: Option<Result<Settings, String>>,
) -> (failure: Option<String>)
    ensures
        final(bridge).outstanding == (if arrived is Some && old(bridge).outstanding > 0 {
            old(bridge).outstanding - 1
        } else {
            old(bridge).outstanding as int
        }),
        old(bridge).outstanding > 0 && arrived is Some && arrived->Some_0 is Ok ==> *final(current)
            == arrived->Some_0->Ok_0,
        !(old(bridge).outstanding > 0 && arrived is Some && arrived->Some_0 is Ok)
            ==> *final(current) == *old(current),
        failure is Some <==> old(bridge).outstanding > 0 && arrived is Some && arrived->Some_0 is Err,
        failure is Some ==> failure->Some_0 == arrived->Some_0->Err_0,
{
    if bridge.outstanding == 0 {
        return None;
    }
    match arrived {
        None => None,
        Some(result) => {
            bridge.observe(true);
            match result {
                Ok(loaded) => {
                    *current = loaded;
                    None
                },
                Err(reason) => Some(reason),
            }
        },
    }
}

/// The deferred scan: at most one runs at a time.
pub struct ScanTask {
    pub bridge: Bridge,
    /// What is shown about the scan.
    pub message: String,
    /// Milliseconds for which the message is still shown.
    pub message_timer: i32,
}

impl ScanTask {
    /// Whether a scan is under way.
    pub open spec fn scanning(&self) -> bool {
        self.bridge.outstanding > 0
    }

    /// No scan under way, nothing to show.
    pub fn new() -> (task: ScanTask)
        ensures
            !task.scanning(),
            task.message@.len() == 0,
            task.message_timer == 0,
    {
        ScanTask { bridge: Bridge::new(), message: String::new(), message_timer: 0 }
    }

    /// Tells whether a scan is under way.
    pub fn is_scanning(&self) -> (scanning: bool)
        ensures
            scanning == self.scanning(),
    {
        self.bridge.outstanding > 0
    }

    /// Starts a scan unless one is under way.
    pub fn start(&mut self) -> (started: bool)
        ensures
            started == !old(self).scanning(),
            final(self).scanning(),
            started ==> final(self).message@ == "Scanning Deep Space..."@,
            !started ==> final(self).message == old(self).message,
            final(self).message_timer == old(self).message_timer,
    {
        if self.bridge.try_start() {
            self.message = String::from_str("Scanning Deep Space...");
            true
        } else {
            false
        }
    }

    /// One poll of the scan: a result that was waited for ends the scan, is
    /// shown for `SCAN_MESSAGE_MS` and pays `SCAN_BONUS`.
    pub fn poll(&mut self, arrived: Option<String>, score: &mut u32) -> (finished: bool)
        requires
            *old(score) + SCAN_BONUS <= u32::MAX,
        ensures
            finished == (old(self).scanning() && arrived is Some),
            finished ==> {
                &&& !final(self).scanning()
                &&& final(self).message == arrived->Some_0
                &&& final(self).message_timer == SCAN_MESSAGE_MS
                &&& *final(score) == *old(score) + SCAN_BONUS
            },
            !finished ==> {
                &&& final(self).bridge.outstanding == old(self).bridge.outstanding
                &&& final(self).message == old(self).message
                &&& final(self).message_timer == old(self).message_timer
                &&& *final(score) == *old(score)
            },
    {
        if self.bridge.outstanding == 0 {
            return false;
        }
        match arrived {
            None => false,
            Some(message) => {
                self.bridge.outstanding = 0;
                self.message = message;
                self.message_timer = SCAN_MESSAGE_MS;
                *score += SCAN_BONUS;
                true
            },
        }
    }

    /// Tells whether the result of the last scan is to be shown in this
    /// frame, and lets `dt` milliseconds of its time pass if so.
    pub fn show_message(&mut self, dt: i32) -> (shown: bool)
        requires
            dt >= 0,
        ensures
            shown == (!old(self).scanning() && old(self).message_timer > 0),
            final(self).message_timer == (if shown {
                old(self).message_timer - dt
            } else {
                old(self).message_timer as int
            }),
            final(self).bridge.outstanding == old(self).bridge.outstanding,
            final(self).message == old(self).message,
    {
        if self.bridge.outstanding == 0 && self.message_timer > 0 {
            self.message_timer -= dt;
            true
        } else {
            false
        }
    }
}

} // verus!

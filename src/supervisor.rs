//! The fleet: when each network's follower is started, and the supervisor's
//! record of the running generation, which is replaced whole when the
//! configuration changes.

use vstd::prelude::*;
use crate::checkpoint::{
    data_is_stale, find_last_update_point, generate_follower_config, is_stale, Checkpoint,
    FollowFrom, FollowFromError, LookupError,
};
use crate::hexcodec::{hex_decoded, is_hex};

verus! {

/// One configured network: its name and the relay to follow it through.
#[derive(Clone, Debug)]
pub struct NetworkConfig {
    pub network: String,
    pub relay: String,
}

/// The whole follower configuration: the networks, in order, and the
/// staleness threshold in seconds shared by all of them.
#[derive(Clone, Debug)]
pub struct FleetConfig {
    pub networks: Vec<NetworkConfig>,
    pub timing_pattern: i64,
}

/// A configuration as plain values: each network's name and relay, and the
/// threshold.
pub open spec fn config_view(c: FleetConfig) -> (Seq<(Seq<char>, Seq<char>)>, int) {
    (c.networks@.map_values(|n: NetworkConfig| (n.network@, n.relay@)), c.timing_pattern as int)
}

/// Whether two configurations are the same, field for field.
pub fn same_config(a: &FleetConfig, b: &FleetConfig) -> (r: bool)
    ensures
        r == (config_view(*a) == config_view(*b)),
{
    if a.timing_pattern != b.timing_pattern || a.networks.len() != b.networks.len() {
        proof {
            if a.networks.len() != b.networks.len() {
                assert(config_view(*a).0.len() != config_view(*b).0.len());
            }
        }
        return false;
    }
    let mut i: usize = 0;
    while i < a.networks.len()
        invariant
            a.networks.len() == b.networks.len(),
            a.timing_pattern == b.timing_pattern,
            i <= a.networks.len(),
            forall|j: int| 0 <= j < i ==> config_view(*a).0[j] == config_view(*b).0[j],
        decreases a.networks.len() - i,
    {
        let same = a.networks[i].network == b.networks[i].network && a.networks[i].relay
            == b.networks[i].relay;
        if !same {
            assert(config_view(*a).0[i as int] != config_view(*b).0[i as int]);
            return false;
        }
        i = i + 1;
    }
    assert(config_view(*a).0 =~= config_view(*b).0);
    true
}

/// Why a network's follower could not be started.
#[derive(Clone, Copy, Debug, PartialEq, Eq, Structural)]
pub enum SpawnError {
    /// The store failed while looking up the checkpoint.
    Store,
    /// The checkpoint's slot is negative.
    SlotOutOfRange,
    /// The checkpoint's hash is not hexadecimal text.
    InvalidHash,
}

/// What one tick of the staleness check decides for a network.
#[derive(Clone, Debug)]
pub enum SpawnDecision {
    /// The data is still fresh: check again on the next tick.
    Wait,
    /// Start the follower from this point.
    Start(FollowFrom),
    /// Give up on this spawn attempt.
    Abort(SpawnError),
}

/// One tick of the spawn loop for a network, given the store's checkpoint
/// answer, the time now and the staleness threshold: wait while the data is
/// fresh, else start from the checkpoint (or from genesis when there is none).
pub fn decide_spawn(lookup: Result<Checkpoint, LookupError>, now: i64, timing_pattern: i64) -> (r:
    SpawnDecision)
    ensures
        lookup == Err::<Checkpoint, LookupError>(LookupError::Store) ==> r == SpawnDecision::Abort(
            SpawnError::Store,
        ),
        lookup == Err::<Checkpoint, LookupError>(LookupError::NotFound) ==> (r matches SpawnDecision::Start(
            f,
        ) && f is Genesis),
        lookup matches Ok(c) ==> {
            &&& !is_stale(now as int, Some(c.last_updated), timing_pattern as int) ==> r
                == SpawnDecision::Wait
            &&& is_stale(now as int, Some(c.last_updated), timing_pattern as int) ==> {
                &&& c.slot < 0 ==> r == SpawnDecision::Abort(SpawnError::SlotOutOfRange)
                &&& (c.slot >= 0 && !is_hex(c.block_hash@)) ==> r == SpawnDecision::Abort(
                    SpawnError::InvalidHash,
                )
                &&& (c.slot >= 0 && is_hex(c.block_hash@)) ==> (r matches SpawnDecision::Start(
                    FollowFrom::Point { slot, hash },
                ) && slot == c.slot as u64 && hash@ == hex_decoded(c.block_hash@))
            }
        },
{
    let point = match find_last_update_point(lookup) {
        Ok(p) => p,
        Err(_) => {
            return SpawnDecision::Abort(SpawnError::Store);
        },
    };
    if !data_is_stale(now, point.last_updated, timing_pattern) {
        return SpawnDecision::Wait;
    }
    match generate_follower_config(point.slot, point.block_hash) {
        Ok(f) => SpawnDecision::Start(f),
        Err(FollowFromError::SlotOutOfRange) => SpawnDecision::Abort(SpawnError::SlotOutOfRange),
        Err(FollowFromError::InvalidHash) => SpawnDecision::Abort(SpawnError::InvalidHash),
    }
}

/// What the supervisor does after a configuration check.
#[derive(Clone, Debug)]
pub enum ConfigDecision {
    /// The configuration is unchanged: keep the fleet running.
    KeepRunning,
    /// The configuration changed: cancel the workers of these networks, all
    /// of the outgoing generation, then spawn the fleet anew.
    Restart(Vec<String>),
    /// The configuration could not be read: stop with an error.
    ConfigDeleted,
}

/// The supervisor's record of the running generation: its configuration and
/// the networks whose workers it has started, in spawn order.
#[derive(Clone, Debug)]
pub struct Supervisor {
    pub config: FleetConfig,
    pub running: Vec<String>,
}

impl Supervisor {
    /// The running workers are a prefix of the configured networks: one per
    /// network, started in configuration order, all of this generation.
    pub open spec fn wf(&self) -> bool {
        &&& self.running@.len() <= self.config.networks@.len()
        &&& forall|i: int|
            0 <= i < self.running@.len() ==> #[trigger] self.running@[i]@
                == self.config.networks@[i].network@
    }

    /// A new generation for `config`, with no worker started yet.
    pub fn new(config: FleetConfig) -> (r: Supervisor)
        ensures
            r.wf(),
            r.config == config,
            r.running@.len() == 0,
    {
        Supervisor { config, running: Vec::new() }
    }

    /// The position in the configuration of the next network to start, if
    /// any is left.
    pub fn next_to_spawn(&self) -> (r: Option<usize>)
        requires
            self.wf(),
        ensures
            r == (if self.running@.len() < self.config.networks@.len() {
                Some(self.running@.len() as usize)
            } else {
                None
            }),
    {
        if self.running.len() < self.config.networks.len() {
            Some(self.running.len())
        } else {
            None
        }
    }

    /// Records that the worker of the next network has been started.
    pub fn worker_started(&mut self)
        requires
            old(self).wf(),
            old(self).running@.len() < old(self).config.networks@.len(),
        ensures
            final(self).wf(),
            final(self).config == old(self).config,
            final(self).running@.len() == old(self).running@.len() + 1,
            final(self).running@.drop_last() == old(self).running@,
            final(self).running@.last()@ == old(self).config.networks@[old(
                self,
            ).running@.len() as int].network@,
    {
        let i = self.running.len();
        let name = self.config.networks[i].network.clone();
        self.running.push(name);
        assert(self.running@.drop_last() =~= old(self).running@);
    }

    /// Handles the configuration read on a check tick.
    pub fn on_config(&mut self, fetched: Option<FleetConfig>) -> (d: ConfigDecision)
        requires
            old(self).wf(),
        ensures
            final(self).wf(),
            config_step(*old(self), fetched, *final(self), d),
    {
        match fetched {
            None => ConfigDecision::ConfigDeleted,
            Some(c) => {
                if same_config(&self.config, &c) {
                    ConfigDecision::KeepRunning
                } else {
                    let mut cancelled: Vec<String> = Vec::new();
                    core::mem::swap(&mut cancelled, &mut self.running);
                    self.config = c;
                    ConfigDecision::Restart(cancelled)
                }
            },
        }
    }
}

/// One configuration check: supervisor `s` reads `fetched`, becomes `s2` and
/// decides `d`.
pub open spec fn config_step(
    s: Supervisor,
    fetched: Option<FleetConfig>,
    s2: Supervisor,
    d: ConfigDecision,
) -> bool {
    match fetched {
        None => s2 == s && d == ConfigDecision::ConfigDeleted,
        Some(c) => if config_view(c) == config_view(s.config) {
            s2 == s && d == ConfigDecision::KeepRunning
        } else {
            &&& d matches ConfigDecision::Restart(cancelled) && cancelled@ == s.running@
            &&& s2.config == c
            &&& s2.running@.len() == 0
        },
    }
}

/// Generations never overlap: when a check reads a configuration that differs
/// from the running one, the decision cancels every worker of the running
/// generation, and the new generation starts with no worker, so each worker
/// started afterwards belongs to the new configuration.
pub proof fn lemma_restart_cancels_whole_generation(
    s: Supervisor,
    c: FleetConfig,
    s2: Supervisor,
    d: ConfigDecision,
)
    requires
        s.wf(),
        config_view(c) != config_view(s.config),
        config_step(s, Some(c), s2, d),
    ensures
        d matches ConfigDecision::Restart(cancelled) && cancelled@ == s.running@,
        s2.wf(),
        s2.config == c,
        s2.running@.len() == 0,
{
}

/// Within a generation at most one worker runs per configured entry: the
/// running workers are the configured networks' first ones, each once.
pub proof fn lemma_one_worker_per_network(s: Supervisor, i: int, j: int)
    requires
        s.wf(),
        0 <= i < s.running@.len(),
        0 <= j < s.running@.len(),
        i != j,
        s.config.networks@[i].network@ != s.config.networks@[j].network@,
    ensures
        s.running@[i]@ != s.running@[j]@,
{
}

} // verus!

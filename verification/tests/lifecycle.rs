use actor_core::context::Context;
use actor_core::runtime::{poll_first, poll_restarting, poll_running};
use actor_core::actor::{Actor, Supervised};
use actor_core::state::ActorState;

struct Quiet;

impl Actor for Quiet {}

#[test]
fn bare_actor_runs_to_stopped_on_first_poll() {
    // No hooks overridden, no address ever acquired, no work unit spawned:
    // the first poll walks Started -> Running -> Stopping -> Stopped.
    let mut a = Quiet;
    let mut ctx = Context::new();
    assert_eq!(ctx.state(), ActorState::Started);
    poll_first(&mut a, &mut ctx);
    assert_eq!(ctx.state(), ActorState::Running);
    poll_running(&mut a, &mut ctx);
    assert_eq!(ctx.state(), ActorState::Stopped);
    assert_eq!(ctx.units_count(), 0);
    assert_eq!(ctx.addrs_count(), 0);
}

struct Recorder {
    calls: Vec<String>,
}

impl Actor for Recorder {
    fn started(&mut self, ctx: &mut Context) {
        assert_eq!(ctx.state(), ActorState::Started);
        self.calls.push("started".to_string());
    }

    fn stopping(&mut self, ctx: &mut Context) {
        assert_eq!(ctx.state(), ActorState::Stopping);
        self.calls.push("stopping".to_string());
    }

    fn stopped(&mut self, ctx: &mut Context) {
        assert_eq!(ctx.state(), ActorState::Stopped);
        self.calls.push("stopped".to_string());
    }
}

impl Supervised for Recorder {
    fn restarting(&mut self, ctx: &mut Context) {
        assert_eq!(ctx.state(), ActorState::Started);
        self.calls.push("restarting".to_string());
    }
}

#[test]
fn started_runs_once_strictly_before_other_hooks() {
    let mut a = Recorder { calls: Vec::new() };
    let mut ctx = Context::new();
    poll_first(&mut a, &mut ctx);
    poll_running(&mut a, &mut ctx);
    assert_eq!(a.calls, vec!["started", "stopping", "stopped"]);
    assert_eq!(a.calls.iter().filter(|c| *c == "started").count(), 1);
}

#[test]
fn idle_stopping_is_followed_by_stopped_exactly_once() {
    let mut a = Recorder { calls: Vec::new() };
    let mut ctx = Context::new();
    poll_first(&mut a, &mut ctx);
    poll_running(&mut a, &mut ctx);
    assert_eq!(ctx.state(), ActorState::Stopped);
    assert_eq!(a.calls.iter().filter(|c| *c == "stopped").count(), 1);
    // Terminality: the runtime offers no entry that runs a hook on a
    // stopped context, and what the context still accepts changes nothing.
    assert_eq!(ctx.spawn(), None);
    assert_eq!(ctx.state(), ActorState::Stopped);
    assert_eq!(a.calls.len(), 3);
}

struct Reviver {
    by_address: bool,
    revive_left: u32,
    kept_unit: Option<usize>,
    kept_addr: Option<usize>,
    stopping_runs: u32,
    stopped_runs: u32,
}

impl Actor for Reviver {
    fn stopping(&mut self, ctx: &mut Context) {
        self.stopping_runs += 1;
        if self.revive_left > 0 {
            self.revive_left -= 1;
            if self.by_address {
                self.kept_addr = Some(ctx.address());
            } else {
                self.kept_unit = ctx.spawn();
            }
        }
    }

    fn stopped(&mut self, ctx: &mut Context) {
        let _ = ctx;
        self.stopped_runs += 1;
    }
}

#[test]
fn stopping_hook_restores_by_spawning_work() {
    let mut a = Reviver {
        by_address: false,
        revive_left: 1,
        kept_unit: None,
        kept_addr: None,
        stopping_runs: 0,
        stopped_runs: 0,
    };
    let mut ctx = Context::new();
    poll_first(&mut a, &mut ctx);
    // Nothing keeps the actor alive, so the stop triggers; the hook spawns.
    poll_running(&mut a, &mut ctx);
    assert_eq!(ctx.state(), ActorState::Running);
    assert_eq!(a.stopping_runs, 1);
    assert_eq!(a.stopped_runs, 0);
    assert_eq!(ctx.units_count(), 1);
    // The spawned unit completes; the next trigger finds a passive hook.
    ctx.remove_unit(a.kept_unit.unwrap());
    poll_running(&mut a, &mut ctx);
    assert_eq!(ctx.state(), ActorState::Stopped);
    assert_eq!(a.stopping_runs, 2);
    assert_eq!(a.stopped_runs, 1);
}

#[test]
fn stopping_hook_restores_by_acquiring_address() {
    let mut a = Reviver {
        by_address: true,
        revive_left: 1,
        kept_unit: None,
        kept_addr: None,
        stopping_runs: 0,
        stopped_runs: 0,
    };
    let mut ctx = Context::new();
    poll_first(&mut a, &mut ctx);
    poll_running(&mut a, &mut ctx);
    assert_eq!(ctx.state(), ActorState::Running);
    assert_eq!(ctx.addrs_count(), 1);
    ctx.address_dropped(a.kept_addr.unwrap());
    poll_running(&mut a, &mut ctx);
    assert_eq!(ctx.state(), ActorState::Stopped);
}

#[test]
fn supervised_restart_runs_restarting_not_started() {
    let mut a = Recorder { calls: Vec::new() };
    let mut first_ctx = Context::new();
    poll_first(&mut a, &mut first_ctx);
    assert_eq!(first_ctx.state(), ActorState::Running);
    // The actor fails here; the supervisor builds a fresh context and
    // resumes through `restarting` instead of `started`.
    let mut second_ctx = Context::new();
    poll_restarting(&mut a, &mut second_ctx);
    assert_eq!(second_ctx.state(), ActorState::Running);
    assert_eq!(a.calls, vec!["started", "restarting"]);
    assert_eq!(a.calls.iter().filter(|c| *c == "started").count(), 1);
}

#[test]
fn live_address_keeps_actor_running() {
    let mut a = Quiet;
    let mut ctx = Context::new();
    poll_first(&mut a, &mut ctx);
    let h = ctx.address();
    poll_running(&mut a, &mut ctx);
    poll_running(&mut a, &mut ctx);
    assert_eq!(ctx.state(), ActorState::Running);
    ctx.address_dropped(h);
    poll_running(&mut a, &mut ctx);
    assert_eq!(ctx.state(), ActorState::Stopped);
}

#[test]
fn explicit_stop_request_overrides_live_address() {
    let mut a = Recorder { calls: Vec::new() };
    let mut ctx = Context::new();
    poll_first(&mut a, &mut ctx);
    let _h = ctx.address();
    ctx.stop();
    poll_running(&mut a, &mut ctx);
    assert_eq!(ctx.state(), ActorState::Stopped);
    assert_eq!(a.calls, vec!["started", "stopping", "stopped"]);
}

use actor_core::actor::{Actor, Handler, Response, ResponseType};
use actor_core::adapters::{future_fail, future_resolve};
use actor_core::context::Context;
use actor_core::mailbox::{deliver_all, deliver_next, Mailbox};
use actor_core::runtime::{poll_first, poll_running};
use actor_core::state::ActorState;

struct Sink {
    seen: Vec<u32>,
    errors: Vec<String>,
    in_flight: u32,
    max_in_flight: u32,
}

impl Sink {
    fn new() -> Sink {
        Sink { seen: Vec::new(), errors: Vec::new(), in_flight: 0, max_in_flight: 0 }
    }
}

impl Actor for Sink {}

impl ResponseType<u32> for Sink {
    type Item = u32;
    type Error = ();
}

impl Handler<u32, String> for Sink {
    fn handle(&mut self, msg: u32, ctx: &mut Context) -> Response<u32, ()> {
        assert_eq!(ctx.state(), ActorState::Running);
        self.in_flight += 1;
        if self.in_flight > self.max_in_flight {
            self.max_in_flight = self.in_flight;
        }
        self.seen.push(msg);
        self.in_flight -= 1;
        Response::Reply(msg)
    }

    fn error(&mut self, err: String, _ctx: &mut Context) {
        self.errors.push(err);
    }
}

#[test]
fn mailbox_delivers_in_fifo_order() {
    let mut a = Sink::new();
    let mut ctx = Context::new();
    poll_first(&mut a, &mut ctx);
    let mut mb: Mailbox<u32> = Mailbox::new(7);
    mb.push(1);
    mb.push(2);
    mb.push(3);
    deliver_all::<Sink, u32, String>(&mut a, &mut ctx, &mut mb);
    assert_eq!(a.seen, vec![1, 2, 3]);
    assert_eq!(mb.len(), 0);
}

#[test]
fn deliver_next_returns_the_reply() {
    let mut a = Sink::new();
    let mut ctx = Context::new();
    poll_first(&mut a, &mut ctx);
    let mut mb: Mailbox<u32> = Mailbox::new(1);
    mb.push(41);
    match deliver_next::<Sink, u32, String>(&mut a, &mut ctx, &mut mb) {
        Response::Reply(v) => assert_eq!(v, 41),
        _ => panic!("expected an immediate reply"),
    }
    assert_eq!(mb.len(), 0);
}

#[test]
fn dispatches_never_overlap() {
    let mut a = Sink::new();
    let mut ctx = Context::new();
    poll_first(&mut a, &mut ctx);
    let mut mb: Mailbox<u32> = Mailbox::new(2);
    for m in 0..20 {
        mb.push(m);
    }
    deliver_all::<Sink, u32, String>(&mut a, &mut ctx, &mut mb);
    assert_eq!(a.max_in_flight, 1);
    assert_eq!(a.seen.len(), 20);
}

#[test]
fn spawn_style_operations_are_rejected_when_stopped() {
    let mut a = Sink::new();
    let mut ctx = Context::new();
    poll_first(&mut a, &mut ctx);
    poll_running(&mut a, &mut ctx);
    assert_eq!(ctx.state(), ActorState::Stopped);
    let before = ctx.units_count();
    assert!(ctx.add_future().is_none());
    assert!(ctx.add_stream().is_none());
    assert!(ctx.spawn().is_none());
    assert_eq!(ctx.units_count(), before);
    assert_eq!(ctx.state(), ActorState::Stopped);
}

#[test]
fn future_resolution_routes_to_handle() {
    let mut a = Sink::new();
    let mut ctx = Context::new();
    poll_first(&mut a, &mut ctx);
    let cell = ctx.add_future().unwrap();
    assert_eq!(ctx.units_count(), 1);
    match future_resolve::<Sink, u32, String>(&mut a, &mut ctx, cell, 42) {
        Response::Reply(v) => assert_eq!(v, 42),
        _ => panic!("expected an immediate reply"),
    }
    assert_eq!(a.seen, vec![42]);
    // The adapter removed itself on resolution.
    assert_eq!(ctx.units_count(), 0);
}

#[test]
fn future_failure_routes_to_error_hook() {
    let mut a = Sink::new();
    let mut ctx = Context::new();
    poll_first(&mut a, &mut ctx);
    let cell = ctx.add_future().unwrap();
    future_fail::<Sink, u32, String>(&mut a, &mut ctx, cell, "boom".to_string());
    assert_eq!(a.errors, vec!["boom"]);
    assert!(a.seen.is_empty());
    assert_eq!(ctx.units_count(), 0);
}

struct Parity;

impl Actor for Parity {}

impl ResponseType<u32> for Parity {
    type Item = u32;
    type Error = String;
}

impl Handler<u32, ()> for Parity {
    fn handle(&mut self, msg: u32, _ctx: &mut Context) -> Response<u32, String> {
        if msg == 13 {
            Response::Deferred
        } else if msg % 2 == 0 {
            Response::Reply(msg)
        } else {
            Response::Failure("odd".to_string())
        }
    }
}

#[test]
fn each_response_form_comes_back_to_the_source() {
    let mut a = Parity;
    let mut ctx = Context::new();
    poll_first(&mut a, &mut ctx);
    let mut mb: Mailbox<u32> = Mailbox::new(4);
    mb.push(4);
    mb.push(7);
    mb.push(13);
    match deliver_next::<Parity, u32, ()>(&mut a, &mut ctx, &mut mb) {
        Response::Reply(v) => assert_eq!(v, 4),
        _ => panic!("even input owes an immediate reply"),
    }
    match deliver_next::<Parity, u32, ()>(&mut a, &mut ctx, &mut mb) {
        Response::Failure(e) => assert_eq!(e, "odd"),
        _ => panic!("odd input owes the declared failure"),
    }
    match deliver_next::<Parity, u32, ()>(&mut a, &mut ctx, &mut mb) {
        Response::Deferred => {}
        _ => panic!("this input owes a deferred reply"),
    }
}

struct OneShot {
    handled: u32,
}

impl Actor for OneShot {}

impl ResponseType<u32> for OneShot {
    type Item = ();
    type Error = ();
}

impl Handler<u32, ()> for OneShot {
    fn handle(&mut self, _msg: u32, ctx: &mut Context) -> Response<(), ()> {
        self.handled += 1;
        ctx.stop();
        Response::NoReply
    }
}

#[test]
fn handler_can_request_stop_through_its_context() {
    let mut a = OneShot { handled: 0 };
    let mut ctx = Context::new();
    poll_first(&mut a, &mut ctx);
    let addr = ctx.address();
    let mut mb: Mailbox<u32> = Mailbox::new(3);
    mb.push(9);
    deliver_all::<OneShot, u32, ()>(&mut a, &mut ctx, &mut mb);
    assert_eq!(a.handled, 1);
    // The live address alone would keep the actor running; the explicit
    // request wins on the next poll.
    poll_running(&mut a, &mut ctx);
    assert_eq!(ctx.state(), ActorState::Stopped);
    let _ = addr;
}

#[test]
fn pending_work_unit_defers_the_stop() {
    let mut a = Sink::new();
    let mut ctx = Context::new();
    poll_first(&mut a, &mut ctx);
    let cell = ctx.add_future().unwrap();
    poll_running(&mut a, &mut ctx);
    assert_eq!(ctx.state(), ActorState::Running);
    future_resolve::<Sink, u32, String>(&mut a, &mut ctx, cell, 5);
    poll_running(&mut a, &mut ctx);
    assert_eq!(ctx.state(), ActorState::Stopped);
}

//! What a front end needs between a request and the manager: ids and ports
//! picked at random, and the plain answers that go back to the client.

use crate::console::{tail_from, texts};
use crate::error::{Error, ErrorView};
use crate::instance::{send_step, Probe};
use crate::manager::{launch_plan, online, start_check, LaunchPlan, Manager, ManagerView};
use crate::text::{decimal, decimal_digits};
use rand::Rng;
use vstd::prelude::*;

verus! {

/// The lowest port that a server is started on.
pub const FIRST_PORT: u32 = 25565;

/// The first port above those that a server is started on.
pub const PORT_LIMIT: u32 = 35565;

/// Draws a number with `gen_range` of the `rand` crate, from the generator
/// that `thread_rng` hands out. Believed of it, as its documentation says:
/// the number lies in the range from `low` up to, and not including, `high`.
/// It panics where `low` is not below `high`, which the precondition rules
/// out.
#[verifier::external_body]
fn random_between(low: u32, high: u32) -> (r: u32)
    requires
        low < high,
    ensures
        low <= r < high,
{
    rand::thread_rng().gen_range(low, high)
}

/// Draws a number with `random` of the `rand` crate. Nothing is believed of
/// the number.
#[verifier::external_body]
fn random_number() -> u32 {
    rand::random::<u32>()
}

/// Picks the port for a server that is about to be started.
pub fn pick_port() -> (r: u32)
    ensures
        FIRST_PORT <= r < PORT_LIMIT,
{
    random_between(FIRST_PORT, PORT_LIMIT)
}

/// Picks the id for a server that is about to be created: a number in
/// decimal notation.
pub fn fresh_id() -> (r: String)
    ensures
        exists|n: u32| r@ == decimal_digits(n as nat),
{
    let n = random_number();
    let r = decimal(n);
    r
}

/// Decides, as [`Manager::start`] does, whether a server may be started, on
/// a port picked at random. The port comes back with the plan.
pub fn start_on_random_port(manager: &Manager, id: &str, files_exist: bool) -> (r: Result<
    (u32, LaunchPlan),
    Error,
>)
    requires
        manager.wf(),
    ensures
        match r {
            Ok((port, plan)) => {
                &&& FIRST_PORT <= port < PORT_LIMIT
                &&& start_check(manager@, id@, files_exist) is Ok
                &&& plan@ == launch_plan(manager@, id@, port)
            },
            Err(e) => start_check(manager@, id@, files_exist) == Err::<(), ErrorView>(e@),
        },
{
    let port = pick_port();
    match manager.start(id, port, files_exist) {
        Ok(plan) => Ok((port, plan)),
        Err(e) => Err(e),
    }
}

/// The answer to a request that either worked or did not.
pub open spec fn status_of(worked: bool) -> Seq<char> {
    if worked {
        "1"@
    } else {
        "-1"@
    }
}

/// The answer to a request, from the result of the operation it asked for.
pub fn status<T>(result: &Result<T, Error>) -> (r: &'static str)
    ensures
        r@ == status_of(result is Ok),
{
    match result {
        Ok(_) => "1",
        Err(_) => "-1",
    }
}

/// Sends a command to a server on behalf of a client. The client learns
/// whether the server was online, not whether the command was taken in.
/// `probe` and `again` are two looks at the process, one for finding the
/// server and one for sending.
pub fn write_console(manager: &mut Manager, id: &str, msg: String, probe: Probe, again: Probe) -> (r:
    &'static str)
    requires
        old(manager).wf(),
    ensures
        final(manager).wf(),
        r@ == status_of(online(old(manager)@, id@, probe@)),
        online(old(manager)@, id@, probe@) ==> final(manager)@ == (ManagerView {
            instances: old(manager)@.instances.insert(
                id@,
                send_step(old(manager)@.instances[id@], msg@, again@).0,
            ),
            ..old(manager)@
        }),
        !online(old(manager)@, id@, probe@) ==> final(manager)@ == old(manager)@,
{
    match manager.get(id, probe) {
        Some(instance) => {
            let _ = instance.send(msg, again);
            "1"
        },
        None => "-1",
    }
}

/// Reads a server's console from line `start_line` on, on behalf of a
/// client. A server that is not online has no lines.
pub fn read_console(manager: &mut Manager, id: &str, start_line: u32, probe: Probe) -> (r: Vec<
    String,
>)
    requires
        old(manager).wf(),
    ensures
        final(manager).wf(),
        final(manager)@ == old(manager)@,
        texts(r@) == if online(old(manager)@, id@, probe@) {
            tail_from(old(manager)@.instances[id@].console, start_line as int)
        } else {
            Seq::empty()
        },
{
    match manager.get(id, probe) {
        Some(instance) => {
            let r = instance.get(start_line);
            assert(old(manager)@.instances.insert(id@, instance@) =~= old(manager)@.instances);
            r
        },
        None => {
            let r: Vec<String> = Vec::new();
            r
        },
    }
}

} // verus!

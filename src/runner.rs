use vstd::prelude::*;

use crate::error::StandaloneError;
use crate::image::{extract_payload, spec_extract};
use crate::loader::{synthetic_specifier, SPECIFIER};
use crate::trailer::spec_read_trailer;
use vstd::utf8::{decode_utf8, valid_utf8};

verus! {

/// How the engine is set up for a self-contained run.  Built once per run and
/// never changed.
pub struct RuntimeConfig {
    /// The script's arguments: the process arguments without the program name.
    pub argv: Vec<String>,
    /// The URL of the module that is run.
    pub main_module: String,
    /// Every permission is granted.
    pub allow_all: bool,
    /// Unstable features are on.
    pub unstable: bool,
    /// Output is not coloured.
    pub no_color: bool,
}

/// The stages of a run, after the image has been found to carry a script.
#[derive(Debug, Clone, Copy, PartialEq, Eq, Structural)]
pub enum Phase {
    /// Set the engine up with the configuration and the loader.
    Bootstrap,
    /// Evaluate the embedded module to completion.
    ExecuteModule,
    /// Send the `load` event.
    DispatchLoad,
    /// Run queued work until none is left.
    RunEventLoop,
    /// Send the `unload` event.
    DispatchUnload,
    /// Leave the process with this code.
    Exit(i32),
}

/// The stage after `p`, given whether the work of `p` succeeded: each stage
/// leads to the next, the last to a clean exit, and any failure to exit
/// code 1.
pub open spec fn spec_next(p: Phase, ok: bool) -> Phase {
    match p {
        Phase::Exit(c) => Phase::Exit(c),
        _ => if !ok {
            Phase::Exit(1)
        } else {
            match p {
                Phase::Bootstrap => Phase::ExecuteModule,
                Phase::ExecuteModule => Phase::DispatchLoad,
                Phase::DispatchLoad => Phase::RunEventLoop,
                Phase::RunEventLoop => Phase::DispatchUnload,
                _ => Phase::Exit(0),
            }
        },
    }
}

/// Where a run stands after the outcomes in `oks`, from `p`.
pub open spec fn spec_run(p: Phase, oks: Seq<bool>) -> Phase
    decreases oks.len(),
{
    if oks.len() == 0 {
        p
    } else {
        spec_run(spec_next(p, oks[0]), oks.drop_first())
    }
}

/// The first stage of a run.
pub fn first_phase() -> (r: Phase)
    ensures
        r == Phase::Bootstrap,
{
    Phase::Bootstrap
}

/// Moves a run on by one stage.
pub fn next_phase(p: Phase, ok: bool) -> (r: Phase)
    ensures
        r == spec_next(p, ok),
{
    match p {
        Phase::Exit(c) => Phase::Exit(c),
        _ => if !ok {
            Phase::Exit(1)
        } else {
            match p {
                Phase::Bootstrap => Phase::ExecuteModule,
                Phase::ExecuteModule => Phase::DispatchLoad,
                Phase::DispatchLoad => Phase::RunEventLoop,
                Phase::RunEventLoop => Phase::DispatchUnload,
                _ => Phase::Exit(0),
            }
        },
    }
}

/// The exit code of a finished run, `None` while it goes on.
pub fn exit_code(p: Phase) -> (r: Option<i32>)
    ensures
        r == (match p {
            Phase::Exit(c) => Some(c),
            _ => None::<i32>,
        }),
{
    match p {
        Phase::Exit(c) => Some(c),
        _ => None,
    }
}

/// The script that sends the `load` event.
pub fn load_event_script() -> (r: String)
    ensures
        r@ == "window.dispatchEvent(new Event('load'))"@,
{
    "window.dispatchEvent(new Event('load'))".to_owned()
}

/// The script that sends the `unload` event.
pub fn unload_event_script() -> (r: String)
    ensures
        r@ == "window.dispatchEvent(new Event('unload'))"@,
{
    "window.dispatchEvent(new Event('unload'))".to_owned()
}

/// The answer to a script that asks for a worker: this mode has none.
pub fn create_web_worker() -> (r: Result<(), StandaloneError>)
    ensures
        r == Err::<(), StandaloneError>(StandaloneError::WorkersUnsupported),
{
    Err(StandaloneError::WorkersUnsupported)
}

/// The process arguments without the program name.
pub fn script_args(args: &Vec<String>) -> (r: Vec<String>)
    requires
        args@.len() >= 1,
    ensures
        r@ == args@.subrange(1, args@.len() as int),
{
    let mut r: Vec<String> = Vec::new();
    let mut i: usize = 1;
    while i < args.len()
        invariant
            1 <= i <= args@.len(),
            r@ == args@.subrange(1, i as int),
        decreases args@.len() - i,
    {
        r.push(args[i].clone());
        i = i + 1;
        assert(r@ =~= args@.subrange(1, i as int));
    }
    r
}

/// The configuration of a run with process arguments `args`, on a terminal
/// that shows colour when `use_color` holds.
pub fn build_config(args: &Vec<String>, use_color: bool) -> (r: RuntimeConfig)
    requires
        args@.len() >= 1,
    ensures
        r.argv@ == args@.subrange(1, args@.len() as int),
        r.main_module@ == synthetic_specifier(),
        r.allow_all,
        r.unstable,
        r.no_color == !use_color,
{
    RuntimeConfig {
        argv: script_args(args),
        main_module: SPECIFIER.to_owned(),
        allow_all: true,
        unstable: true,
        no_color: !use_color,
    }
}

/// What start-up makes of the running image.
pub enum Launch {
    /// An ordinary image: start-up goes on as if nothing had been looked at.
    NotStandalone,
    /// A self-contained image: run `source` under `config`.
    Run { source: String, config: RuntimeConfig },
    /// A self-contained image whose script cannot be had: report the error
    /// and exit with code 1.
    Fail(StandaloneError),
}

/// Decides how to start, from the bytes of the running image, the process
/// arguments and whether colour is shown.  An image too short to hold a
/// trailer is an error; everything that goes wrong after a trailer has been
/// found is a failed run.
pub fn try_run_standalone_binary(image: &[u8], args: &Vec<String>, use_color: bool) -> (r: Result<
    Launch,
    StandaloneError,
>)
    requires
        args@.len() >= 1,
    ensures
        match spec_extract(image@) {
            Err(e) => match spec_read_trailer(image@) {
                Err(f) => r == Err::<Launch, StandaloneError>(f),
                Ok(_) => r matches Ok(Launch::Fail(g)) && g == e,
            },
            Ok(None) => r matches Ok(Launch::NotStandalone),
            Ok(Some(p)) => if valid_utf8(p) {
                r matches Ok(Launch::Run { source, config }) && source@ == decode_utf8(p)
                    && config.argv@ == args@.subrange(1, args@.len() as int)
                    && config.main_module@ == synthetic_specifier() && config.allow_all
                    && config.unstable && config.no_color == !use_color
            } else {
                r matches Ok(Launch::Fail(g)) && g == StandaloneError::InvalidUtf8
            },
        },
{
    match extract_payload(image) {
        Err(StandaloneError::ImageTooShort) => Err(StandaloneError::ImageTooShort),
        Err(e) => Ok(Launch::Fail(e)),
        Ok(None) => Ok(Launch::NotStandalone),
        Ok(Some(p)) => match crate::image::utf8_to_string(p) {
            None => Ok(Launch::Fail(StandaloneError::InvalidUtf8)),
            Some(source) => Ok(Launch::Run { source, config: build_config(args, use_color) }),
        },
    }
}

/// From the first stage, a run whose every stage succeeds bootstraps,
/// executes the module, sends `load`, runs the event loop, sends `unload`
/// and exits with code 0.
pub proof fn lemma_clean_run()
    ensures
        spec_next(Phase::Bootstrap, true) == Phase::ExecuteModule,
        spec_next(Phase::ExecuteModule, true) == Phase::DispatchLoad,
        spec_next(Phase::DispatchLoad, true) == Phase::RunEventLoop,
        spec_next(Phase::RunEventLoop, true) == Phase::DispatchUnload,
        spec_next(Phase::DispatchUnload, true) == Phase::Exit(0),
        spec_run(Phase::Bootstrap, seq![true, true, true, true, true]) == Phase::Exit(0),
{
    reveal_with_fuel(spec_run, 6);
    let s = seq![true, true, true, true, true];
    assert(s.drop_first() =~= seq![true, true, true, true]);
    assert(s.drop_first().drop_first() =~= seq![true, true, true]);
    assert(s.drop_first().drop_first().drop_first() =~= seq![true, true]);
    assert(s.drop_first().drop_first().drop_first().drop_first() =~= seq![true]);
    assert(s.drop_first().drop_first().drop_first().drop_first().drop_first() =~= Seq::<
        bool,
    >::empty());
}

/// A failure at any stage that has not yet exited ends the run with code 1,
/// and an exited run stays exited whatever comes after.
pub proof fn lemma_failure_exits_with_one(p: Phase, oks: Seq<bool>)
    ensures
        !(p is Exit) ==> spec_next(p, false) == Phase::Exit(1),
        p matches Phase::Exit(c) ==> spec_run(p, oks) == p,
    decreases oks.len(),
{
    if oks.len() > 0 {
        lemma_failure_exits_with_one(spec_next(p, oks[0]), oks.drop_first());
    }
}

} // verus!

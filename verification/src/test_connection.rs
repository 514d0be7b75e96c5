//! The connection test: create the remote directory, then create and remove a probe file in
//! it, stopping at the first failure. The caller runs each command and reports its outcome.
use vstd::prelude::*;
use crate::clipboard::adapter::strings_view;
use crate::config::{Config, ValidationError};
use crate::naming::filename::{is_lower_alnum, random_lower_alnum};
use crate::ssh::commands::{mkdir, mkdir_spec, probe_remove, probe_remove_spec, probe_touch, probe_touch_spec};
use crate::ssh::runner::{CmdOutcome, CmdOutcomeV};
use crate::text::{owned, push_str};

verus! {

/// Why a connection test failed.
#[derive(Debug, Clone, PartialEq, Eq)]
pub enum TestConnectionError {
    ConfigInvalid(String),
    Mkdir(String),
    ProbeTouch(String),
    ProbeRemove(String),
    Io(String),
}

pub enum TestConnectionErrorV {
    ConfigInvalid(Seq<char>),
    Mkdir(Seq<char>),
    ProbeTouch(Seq<char>),
    ProbeRemove(Seq<char>),
    Io(Seq<char>),
}

impl View for TestConnectionError {
    type V = TestConnectionErrorV;

    open spec fn view(&self) -> TestConnectionErrorV {
        match self {
            TestConnectionError::ConfigInvalid(s) => TestConnectionErrorV::ConfigInvalid(s@),
            TestConnectionError::Mkdir(s) => TestConnectionErrorV::Mkdir(s@),
            TestConnectionError::ProbeTouch(s) => TestConnectionErrorV::ProbeTouch(s@),
            TestConnectionError::ProbeRemove(s) => TestConnectionErrorV::ProbeRemove(s@),
            TestConnectionError::Io(s) => TestConnectionErrorV::Io(s@),
        }
    }
}

/// The user-facing text of a connection-test error.
pub open spec fn test_error_text(e: TestConnectionErrorV) -> Seq<char> {
    match e {
        TestConnectionErrorV::ConfigInvalid(s) => "config invalid: "@ + s,
        TestConnectionErrorV::Mkdir(s) => "mkdir failed: "@ + s,
        TestConnectionErrorV::ProbeTouch(s) => "probe touch failed: "@ + s,
        TestConnectionErrorV::ProbeRemove(s) => "probe remove failed: "@ + s,
        TestConnectionErrorV::Io(s) => "io: "@ + s,
    }
}

fn cat(a: &str, b: &str) -> (r: String)
    ensures
        r@ == a@ + b@,
{
    let mut s = owned(a);
    push_str(&mut s, b);
    s
}

impl TestConnectionError {
    /// The user-facing text of the error.
    pub fn message(&self) -> (r: String)
        ensures
            r@ == test_error_text(self@),
    {
        match self {
            TestConnectionError::ConfigInvalid(s) => cat("config invalid: ", s.as_str()),
            TestConnectionError::Mkdir(s) => cat("mkdir failed: ", s.as_str()),
            TestConnectionError::ProbeTouch(s) => cat("probe touch failed: ", s.as_str()),
            TestConnectionError::ProbeRemove(s) => cat("probe remove failed: ", s.as_str()),
            TestConnectionError::Io(s) => cat("io: ", s.as_str()),
        }
    }
}

/// `.clipship-probe-<suffix>`.
pub open spec fn probe_name_spec(suffix: Seq<char>) -> Seq<char> {
    ".clipship-probe-"@ + suffix
}

/// The name of the probe file for a given suffix.
pub fn probe_name(suffix: &str) -> (r: String)
    ensures
        r@ == probe_name_spec(suffix@),
{
    cat(".clipship-probe-", suffix)
}

/// A fresh probe name with eight random lower-case letters or digits.
pub fn new_probe_name() -> (r: String)
    ensures
        exists|suffix: Seq<char>|
            suffix.len() == 8 && (forall|i: int| 0 <= i < 8 ==> is_lower_alnum(#[trigger] suffix[i]))
                && r@ == probe_name_spec(suffix),
{
    let suffix = random_lower_alnum(8);
    let r = probe_name(suffix.as_str());
    assert(forall|i: int| 0 <= i < 8 ==> is_lower_alnum(#[trigger] suffix@[i]));
    r
}

/// Where a connection test stands: waiting for the outcome of this command.
#[derive(Debug, Clone, Copy, PartialEq, Eq, Structural)]
pub enum TestPhase {
    Mkdir,
    Touch,
    Remove,
    Done,
}

/// What to do next.
#[derive(Debug)]
pub enum TestAction {
    Run(Vec<String>),
    Finish(Result<(), TestConnectionError>),
    /// The test is over; nothing to do.
    Idle,
}

pub enum TestActionV {
    Run(Seq<Seq<char>>),
    Finish(Result<(), TestConnectionErrorV>),
    Idle,
}

impl View for TestAction {
    type V = TestActionV;

    open spec fn view(&self) -> TestActionV {
        match self {
            TestAction::Run(v) => TestActionV::Run(strings_view(v@)),
            TestAction::Finish(Ok(())) => TestActionV::Finish(Ok(())),
            TestAction::Finish(Err(e)) => TestActionV::Finish(Err(e@)),
            TestAction::Idle => TestActionV::Idle,
        }
    }
}

/// The state of a connection test.
pub struct TestConnection {
    phase: TestPhase,
    port: u16,
    key: String,
    user: String,
    host: String,
    remote_dir: String,
    probe: String,
}

pub struct TestConnectionV {
    pub phase: TestPhase,
    pub port: u16,
    pub key: Seq<char>,
    pub user: Seq<char>,
    pub host: Seq<char>,
    pub remote_dir: Seq<char>,
    pub probe: Seq<char>,
}

impl View for TestConnection {
    type V = TestConnectionV;

    closed spec fn view(&self) -> TestConnectionV {
        TestConnectionV {
            phase: self.phase,
            port: self.port,
            key: self.key@,
            user: self.user@,
            host: self.host@,
            remote_dir: self.remote_dir@,
            probe: self.probe@,
        }
    }
}

/// The outcome of a command, as a value.
pub open spec fn outcome_view(r: Result<CmdOutcome, String>) -> Result<CmdOutcomeV, Seq<char>> {
    match r {
        Ok(o) => Ok(o@),
        Err(e) => Err(e@),
    }
}

/// A test starts with `mkdir -p` of the remote directory, unless the configuration is invalid.
pub open spec fn test_start_spec(
    cfg: Config,
    validation: Result<(), ValidationError>,
    probe: Seq<char>,
) -> (TestConnectionV, TestActionV) {
    let s = TestConnectionV {
        phase: TestPhase::Mkdir,
        port: cfg.port,
        key: cfg.private_key_path@,
        user: cfg.username@,
        host: cfg.host@,
        remote_dir: cfg.remote_dir@,
        probe,
    };
    match validation {
        Err(e) => (
            TestConnectionV { phase: TestPhase::Done, ..s },
            TestActionV::Finish(Err(TestConnectionErrorV::ConfigInvalid(e.message_spec()))),
        ),
        Ok(()) => (s, TestActionV::Run(mkdir_spec(s.port, s.key, s.user, s.host, s.remote_dir))),
    }
}

/// After each command: a failure to run it is an I/O error, a non-zero exit is that step's
/// error (with its stderr); otherwise the next command, or success after the removal.
pub open spec fn test_step_spec(s: TestConnectionV, r: Result<CmdOutcomeV, Seq<char>>) -> (
    TestConnectionV,
    TestActionV,
) {
    let done = TestConnectionV { phase: TestPhase::Done, ..s };
    match s.phase {
        TestPhase::Done => (s, TestActionV::Idle),
        _ => match r {
            Err(e) => (done, TestActionV::Finish(Err(TestConnectionErrorV::Io(e)))),
            Ok(o) => match s.phase {
                TestPhase::Mkdir => if !o.success {
                    (done, TestActionV::Finish(Err(TestConnectionErrorV::Mkdir(o.stderr))))
                } else {
                    (
                        TestConnectionV { phase: TestPhase::Touch, ..s },
                        TestActionV::Run(
                            probe_touch_spec(s.port, s.key, s.user, s.host, s.remote_dir, s.probe),
                        ),
                    )
                },
                TestPhase::Touch => if !o.success {
                    (done, TestActionV::Finish(Err(TestConnectionErrorV::ProbeTouch(o.stderr))))
                } else {
                    (
                        TestConnectionV { phase: TestPhase::Remove, ..s },
                        TestActionV::Run(
                            probe_remove_spec(s.port, s.key, s.user, s.host, s.remote_dir, s.probe),
                        ),
                    )
                },
                _ => if !o.success {
                    (done, TestActionV::Finish(Err(TestConnectionErrorV::ProbeRemove(o.stderr))))
                } else {
                    (done, TestActionV::Finish(Ok(())))
                },
            },
        },
    }
}

fn copy_string(s: &String) -> (r: String)
    ensures
        r@ == s@,
{
    s.clone()
}

impl TestConnection {
    /// Begin a connection test of `cfg` (validated as `validation`) with the probe file name
    /// `probe`.
    pub fn start(cfg: &Config, validation: Result<(), ValidationError>, probe: String) -> (r: (
        TestConnection,
        TestAction,
    ))
        ensures
            (r.0@, r.1@) == test_start_spec(*cfg, validation, probe@),
    {
        let mut t = TestConnection {
            phase: TestPhase::Mkdir,
            port: cfg.port,
            key: copy_string(&cfg.private_key_path),
            user: copy_string(&cfg.username),
            host: copy_string(&cfg.host),
            remote_dir: copy_string(&cfg.remote_dir),
            probe,
        };
        match validation {
            Err(e) => {
                t.phase = TestPhase::Done;
                (t, TestAction::Finish(Err(TestConnectionError::ConfigInvalid(e.message()))))
            },
            Ok(()) => {
                let argv = mkdir(
                    t.port,
                    t.key.as_str(),
                    t.user.as_str(),
                    t.host.as_str(),
                    t.remote_dir.as_str(),
                );
                (t, TestAction::Run(argv))
            },
        }
    }

    /// Take the outcome of the last command and decide the next action.
    pub fn step(&mut self, r: Result<CmdOutcome, String>) -> (a: TestAction)
        ensures
            (final(self)@, a@) == test_step_spec(old(self)@, outcome_view(r)),
    {
        if self.phase == TestPhase::Done {
            return TestAction::Idle;
        }
        let o = match r {
            Err(e) => {
                self.phase = TestPhase::Done;
                return TestAction::Finish(Err(TestConnectionError::Io(e)));
            },
            Ok(o) => o,
        };
        match self.phase {
            TestPhase::Mkdir => {
                if !o.success {
                    self.phase = TestPhase::Done;
                    TestAction::Finish(Err(TestConnectionError::Mkdir(o.stderr)))
                } else {
                    self.phase = TestPhase::Touch;
                    TestAction::Run(
                        probe_touch(
                            self.port,
                            self.key.as_str(),
                            self.user.as_str(),
                            self.host.as_str(),
                            self.remote_dir.as_str(),
                            self.probe.as_str(),
                        ),
                    )
                }
            },
            TestPhase::Touch => {
                if !o.success {
                    self.phase = TestPhase::Done;
                    TestAction::Finish(Err(TestConnectionError::ProbeTouch(o.stderr)))
                } else {
                    self.phase = TestPhase::Remove;
                    TestAction::Run(
                        probe_remove(
                            self.port,
                            self.key.as_str(),
                            self.user.as_str(),
                            self.host.as_str(),
                            self.remote_dir.as_str(),
                            self.probe.as_str(),
                        ),
                    )
                }
            },
            _ => {
                self.phase = TestPhase::Done;
                if !o.success {
                    TestAction::Finish(Err(TestConnectionError::ProbeRemove(o.stderr)))
                } else {
                    TestAction::Finish(Ok(()))
                }
            },
        }
    }
}

/// The actions of a connection test from `s`, answered by the outcomes `outs` in turn.
pub open spec fn test_trace(s: TestConnectionV, outs: Seq<Result<CmdOutcomeV, Seq<char>>>) -> Seq<
    TestActionV,
>
    decreases outs.len(),
{
    if outs.len() == 0 || s.phase == TestPhase::Done {
        Seq::empty()
    } else {
        let (s2, a) = test_step_spec(s, outs[0]);
        seq![a] + test_trace(s2, outs.skip(1))
    }
}

/// The commands still to be confirmed in a phase.
pub open spec fn remaining(p: TestPhase) -> int {
    match p {
        TestPhase::Mkdir => 3,
        TestPhase::Touch => 2,
        TestPhase::Remove => 1,
        TestPhase::Done => 0,
    }
}

/// A successful outcome: the command ran and exited with success.
pub open spec fn succeeded(r: Result<CmdOutcomeV, Seq<char>>) -> bool {
    r matches Ok(o) && o.success
}

proof fn lemma_test_trace_success(s: TestConnectionV, outs: Seq<Result<CmdOutcomeV, Seq<char>>>)
    requires
        exists|i: int|
            0 <= i < test_trace(s, outs).len() && #[trigger] test_trace(s, outs)[i] == TestActionV::Finish(
                Ok(()),
            ),
    ensures
        outs.len() >= remaining(s.phase),
        forall|i: int| 0 <= i < remaining(s.phase) ==> succeeded(#[trigger] outs[i]),
    decreases outs.len(),
{
    let t = test_trace(s, outs);
    let i = choose|i: int| 0 <= i < t.len() && #[trigger] t[i] == TestActionV::Finish(Ok(()));
    let (s2, a) = test_step_spec(s, outs[0]);
    let rest = test_trace(s2, outs.skip(1));
    assert(t == seq![a] + rest);
    if s2.phase == TestPhase::Done {
        assert(rest =~= Seq::<TestActionV>::empty());
        assert(i == 0);
    } else {
        if i == 0 {
            assert(a is Run);
        }
        assert(rest[i - 1] == t[i]);
        lemma_test_trace_success(s2, outs.skip(1));
        assert forall|k: int| 0 <= k < remaining(s.phase) implies succeeded(#[trigger] outs[k]) by {
            if k > 0 {
                assert(outs[k] == outs.skip(1)[k - 1]);
            }
        }
    }
}

/// A connection test succeeds only when `mkdir -p`, the probe `touch` and the probe `rm` all
/// ran and succeeded, in that order: the run is exactly those three commands and the success.
pub proof fn law_test_succeeds_only_after_all_three(
    cfg: Config,
    probe: Seq<char>,
    outs: Seq<Result<CmdOutcomeV, Seq<char>>>,
)
    requires
        exists|i: int|
            0 <= i < test_trace(test_start_spec(cfg, Ok(()), probe).0, outs).len()
                && #[trigger] test_trace(test_start_spec(cfg, Ok(()), probe).0, outs)[i]
                == TestActionV::Finish(Ok(())),
    ensures
        outs.len() >= 3,
        succeeded(outs[0]) && succeeded(outs[1]) && succeeded(outs[2]),
        test_trace(test_start_spec(cfg, Ok(()), probe).0, outs) =~= seq![
            TestActionV::Run(
                probe_touch_spec(
                    cfg.port,
                    cfg.private_key_path@,
                    cfg.username@,
                    cfg.host@,
                    cfg.remote_dir@,
                    probe,
                ),
            ),
            TestActionV::Run(
                probe_remove_spec(
                    cfg.port,
                    cfg.private_key_path@,
                    cfg.username@,
                    cfg.host@,
                    cfg.remote_dir@,
                    probe,
                ),
            ),
            TestActionV::Finish(Ok(())),
        ],
{
    let s0 = test_start_spec(cfg, Ok(()), probe).0;
    lemma_test_trace_success(s0, outs);
    let (s1, a1) = test_step_spec(s0, outs[0]);
    let (s2, a2) = test_step_spec(s1, outs.skip(1)[0]);
    let (s3, a3) = test_step_spec(s2, outs.skip(1).skip(1)[0]);
    assert(outs.skip(1)[0] == outs[1]);
    assert(outs.skip(1).skip(1)[0] == outs[2]);
    assert(s1.phase == TestPhase::Touch);
    assert(s2.phase == TestPhase::Remove);
    assert(s3.phase == TestPhase::Done);
    assert(test_trace(s3, outs.skip(1).skip(1).skip(1)) =~= Seq::<TestActionV>::empty());
    assert(test_trace(s2, outs.skip(1).skip(1)) =~= seq![a3]);
    assert(test_trace(s1, outs.skip(1)) =~= seq![a2, a3]);
    assert(test_trace(s0, outs) =~= seq![a1, a2, a3]);
}

} // verus!

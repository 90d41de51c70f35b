use vstd::prelude::*;

use crate::config::{mark_initialized, RuntimeFlags};

verus! {

/// The name of the helper test that runs spawned calls under a test harness.
pub const TEST_HELPER_NAME: &'static str = "procspawn_test_helper";

/// The separator between a module path and an item name.
pub const PATH_SEPARATOR: &'static str = "::";

/// The harness flags that ask for the output of tests to be shown.
pub const SHOW_OUTPUT_FLAG: &'static str = "--show-output";

pub const NOCAPTURE_FLAG: &'static str = "--nocapture";

/// The harness flags that make a test binary run the helper alone.
pub const EXACT_FLAG: &'static str = "--exact";

pub const ONE_THREAD_FLAG: &'static str = "--test-threads=1";

pub const QUIET_FLAG: &'static str = "-q";

/// How a child differs when it runs under a test harness.
#[derive(Debug, Clone, Copy, PartialEq, Eq, Structural)]
pub struct TestMode {
    pub can_pass_args: bool,
    pub should_silence_stdout: bool,
}

/// Whether spawned calls run through the helper test, and the module that
/// holds it.
#[derive(Debug)]
pub struct TestSupport {
    pub enabled: bool,
    pub module: Option<String>,
}

/// The full name of the helper test in the given module.
pub open spec fn helper_path(module: Option<Seq<char>>) -> Seq<char> {
    match module {
        Some(m) => m + PATH_SEPARATOR@ + TEST_HELPER_NAME@,
        None => TEST_HELPER_NAME@,
    }
}

/// True if an argument asks the harness to show output.
pub open spec fn asks_for_output(arg: Seq<char>) -> bool {
    arg == SHOW_OUTPUT_FLAG@ || arg == NOCAPTURE_FLAG@
}

fn is_output_flag(arg: &String) -> (r: bool)
    ensures
        r == asks_for_output(arg@),
{
    let show = String::from_str(SHOW_OUTPUT_FLAG);
    let nocapture = String::from_str(NOCAPTURE_FLAG);
    *arg == show || *arg == nocapture
}

/// True if none of the arguments asks the harness to show output.
pub fn should_silence_stdout(args: &Vec<String>) -> (r: bool)
    ensures
        r == !(exists|i: int| 0 <= i < args@.len() && asks_for_output(#[trigger] args@[i]@)),
{
    let mut i: usize = 0;
    while i < args.len()
        invariant
            i <= args@.len(),
            forall|j: int| 0 <= j < i ==> !asks_for_output(#[trigger] args@[j]@),
        decreases args@.len() - i,
    {
        if is_output_flag(&args[i]) {
            return false;
        }
        i = i + 1;
    }
    true
}

impl TestSupport {
    /// Support that is off.
    pub fn new() -> (r: TestSupport)
        ensures
            !r.enabled,
            r.module is None,
    {
        TestSupport { enabled: false, module: None }
    }

    /// The full name of the helper test.
    pub fn test_helper_path(&self) -> (r: String)
        ensures
            r@ == helper_path(
                match self.module {
                    Some(m) => Some(m@),
                    None => None,
                },
            ),
    {
        match &self.module {
            Some(m) => {
                let mut path = m.clone();
                path.append(PATH_SEPARATOR);
                path.append(TEST_HELPER_NAME);
                path
            },
            None => String::from_str(TEST_HELPER_NAME),
        }
    }

    /// Where test support is on, adds to a child's arguments those that
    /// make the test binary run the helper test alone, quietly and on one
    /// thread, and says how the child differs: it gets no other arguments,
    /// and its output is silenced unless the parent's arguments ask for it.
    pub fn update_command_for_tests(&self, child_args: &mut Vec<String>, parent_args: &Vec<String>) -> (r:
        Option<TestMode>)
        ensures
            !self.enabled ==> r is None && final(child_args)@ == old(child_args)@,
            self.enabled ==> {
                &&& r == Some(
                    TestMode {
                        can_pass_args: false,
                        should_silence_stdout: !(exists|i: int|
                            0 <= i < parent_args@.len() && asks_for_output(
                                #[trigger] parent_args@[i]@,
                            )),
                    },
                )
                &&& final(child_args)@.len() == old(child_args)@.len() + 4
                &&& final(child_args)@.subrange(0, old(child_args)@.len() as int) == old(
                    child_args,
                )@
                &&& final(child_args)@[old(child_args)@.len() as int]@ == helper_path(
                    match self.module {
                        Some(m) => Some(m@),
                        None => None,
                    },
                )
                &&& final(child_args)@[old(child_args)@.len() + 1int]@ == EXACT_FLAG@
                &&& final(child_args)@[old(child_args)@.len() + 2int]@ == ONE_THREAD_FLAG@
                &&& final(child_args)@[old(child_args)@.len() + 3int]@ == QUIET_FLAG@
            },
    {
        if !self.enabled {
            return None;
        }
        child_args.push(self.test_helper_path());
        child_args.push(String::from_str(EXACT_FLAG));
        child_args.push(String::from_str(ONE_THREAD_FLAG));
        child_args.push(String::from_str(QUIET_FLAG));
        Some(TestMode { can_pass_args: false, should_silence_stdout: should_silence_stdout(parent_args) })
    }
}

/// Turns test support on, naming the module of the helper test, and counts
/// the process as initialized. It may be turned on once only.
pub fn enable(support: &mut TestSupport, flags: &mut RuntimeFlags, module: Option<&str>)
    requires
        !old(support).enabled,
    ensures
        final(support).enabled,
        match module {
            Some(m) => final(support).module matches Some(s) && s@ == m@,
            None => final(support).module == old(support).module,
        },
        *final(flags) == (RuntimeFlags { initialized: true, ..*old(flags) }),
{
    support.enabled = true;
    if let Some(m) = module {
        support.module = Some(String::from_str(m));
    }
    mark_initialized(flags);
}

} // verus!

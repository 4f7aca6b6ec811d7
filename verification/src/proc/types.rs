//! The value types shared by the coordinator and the transport layer.

use std::cmp::Ordering;
use vstd::std_specs::cmp::PartialOrdSpec;
use vstd::prelude::*;

use super::clock::{new_v7_id_text, now_or_epoch, uuid_v7_text, v7_millis, valid_instant};

verus! {

/// A point in time: whole seconds since the Unix epoch plus the nanoseconds within that second.
#[derive(Debug, Clone, Copy, PartialEq, Eq, Structural)]
pub struct Timestamp {
    pub secs: i64,
    pub nanos: u32,
}

/// Whether `a` is no later than `b`.
pub open spec fn ts_le(a: Timestamp, b: Timestamp) -> bool {
    a.secs < b.secs || (a.secs == b.secs && a.nanos <= b.nanos)
}

/// The later of two instants.
pub fn later_of(a: Timestamp, b: Timestamp) -> (res: Timestamp)
    ensures
        ts_le(a, res),
        ts_le(b, res),
        res == a || res == b,
{
    if a.secs < b.secs || (a.secs == b.secs && a.nanos < b.nanos) {
        b
    } else {
        a
    }
}

/// The id of the user on whose behalf an operation runs.
#[derive(Debug)]
pub struct User {
    pub id: String,
}

impl Clone for User {
    fn clone(&self) -> (res: Self)
        ensures
            res == *self,
    {
        User { id: self.id.clone() }
    }
}

impl PartialEq for User {
    fn eq(&self, other: &Self) -> (res: bool) {
        self.id == other.id
    }
}

impl Eq for User {

}

impl vstd::std_specs::cmp::PartialEqSpecImpl for User {
    open spec fn obeys_eq_spec() -> bool {
        true
    }

    open spec fn eq_spec(&self, other: &Self) -> bool {
        self.id@ == other.id@
    }
}

impl User {
    /// A user with the given id.
    pub fn new(id: &str) -> (res: User)
        ensures
            res.id@ == id@,
    {
        User { id: id.to_owned() }
    }

    /// The textual form of the user: its id.
    pub fn to_string(&self) -> (res: String)
        ensures
            res@ == self.id@,
    {
        self.id.clone()
    }
}

/// General metadata about any operation on the coordinator.
#[derive(Debug)]
pub struct Ctx {
    pub user: User,
}

impl Clone for Ctx {
    fn clone(&self) -> (res: Self)
        ensures
            res == *self,
    {
        Ctx { user: self.user.clone() }
    }
}

impl Ctx {
    /// The context of an operation made by the user with the given id.
    pub fn for_user(id: &str) -> (res: Ctx)
        ensures
            res.user.id@ == id@,
    {
        Ctx { user: User::new(id) }
    }

    /// The textual form of the context: the id of its user.
    pub fn to_string(&self) -> (res: String)
        ensures
            res@ == self.user.id@,
    {
        self.user.to_string()
    }
}

/// What to run: an executable and its arguments.
#[derive(Debug)]
pub struct JobSpec {
    pub exe: String,
    pub args: Vec<String>,
}

impl Clone for JobSpec {
    fn clone(&self) -> (res: Self)
        ensures
            res.exe == self.exe,
            res.args@ == self.args@,
    {
        JobSpec { exe: self.exe.clone(), args: clone_strings(&self.args) }
    }
}

/// A copy of a vector of strings.
pub(crate) fn clone_strings(v: &Vec<String>) -> (res: Vec<String>)
    ensures
        res@ == v@,
{
    let mut res: Vec<String> = Vec::new();
    let n = v.len();
    for i in 0..n
        invariant
            n == v@.len(),
            res@ == v@.subrange(0, i as int),
    {
        res.push(v[i].clone());
        assert(res@ =~= v@.subrange(0, i + 1));
    }
    assert(res@ =~= v@);
    res
}

impl JobSpec {
    /// A spec for the given executable, with no arguments yet.
    pub fn new(exe: String) -> (res: Self)
        ensures
            res.exe == exe,
            res.args@ == Seq::<String>::empty(),
    {
        JobSpec { exe, args: Vec::new() }
    }

    /// The command line: the executable followed by each argument in order.
    pub fn exe_and_args(&self) -> (res: Vec<String>)
        ensures
            res@ == seq![self.exe].add(self.args@),
    {
        let mut res: Vec<String> = Vec::new();
        res.push(self.exe.clone());
        let n = self.args.len();
        for i in 0..n
            invariant
                n == self.args@.len(),
                res@ == seq![self.exe].add(self.args@.subrange(0, i as int)),
        {
            res.push(self.args[i].clone());
            assert(res@ =~= seq![self.exe].add(self.args@.subrange(0, i + 1)));
        }
        assert(self.args@.subrange(0, n as int) =~= self.args@);
        res
    }

    /// The spec with one more argument at the end.
    pub fn arg(self, arg: String) -> (res: Self)
        ensures
            res.exe == self.exe,
            res.args@ == self.args@.push(arg),
    {
        let mut v: Vec<String> = Vec::new();
        v.push(arg);
        self.args(v)
    }

    /// The spec with the given arguments appended, in order.
    pub fn args(self, args: Vec<String>) -> (res: Self)
        ensures
            res.exe == self.exe,
            res.args@ == self.args@.add(args@),
    {
        let JobSpec { exe, args: mut all } = self;
        let ghost start = all@;
        let n = args.len();
        for i in 0..n
            invariant
                n == args@.len(),
                all@ == start.add(args@.subrange(0, i as int)),
        {
            all.push(args[i].clone());
            assert(all@ =~= start.add(args@.subrange(0, i + 1)));
        }
        assert(args@.subrange(0, n as int) =~= args@);
        JobSpec { exe, args: all }
    }
}

/// The primary view of job state, excluding output streams.
#[derive(Debug)]
pub struct Job {
    pub id: JobId,
    pub user: User,
    pub killed: Option<JobKilled>,
    pub started_at: Timestamp,
    pub ended_at: Option<Timestamp>,
    pub state: JobState,
}

impl Clone for Job {
    fn clone(&self) -> (res: Self)
        ensures
            res == *self,
    {
        let killed = match &self.killed {
            Some(k) => Some(k.clone()),
            None => None,
        };
        Job {
            id: self.id.clone(),
            user: self.user.clone(),
            killed,
            started_at: self.started_at,
            ended_at: self.ended_at,
            state: self.state,
        }
    }
}

impl Job {
    /// Creates a new job in the started state, stamped with the current time (the epoch when the
    /// clock cannot be read as an instant after it).
    pub fn started(job_id: &JobId, user: &User, pid: &Pid) -> (res: Self)
        ensures
            res.id == *job_id,
            res.user == *user,
            res.killed is None,
            res.ended_at is None,
            res.state == (JobState::Running { pid: *pid }),
            valid_instant(res.started_at),
    {
        Job {
            id: job_id.clone(),
            user: user.clone(),
            killed: None,
            started_at: now_or_epoch(),
            ended_at: None,
            state: JobState::Running { pid: *pid },
        }
    }
}

/// The identifier of a job.
#[derive(Debug, Hash)]
pub struct JobId(String);

impl View for JobId {
    type V = Seq<char>;

    closed spec fn view(&self) -> Seq<char> {
        self.0@
    }
}

impl Clone for JobId {
    fn clone(&self) -> (res: Self)
        ensures
            res == *self,
    {
        JobId(self.0.clone())
    }
}

impl PartialEq for JobId {
    fn eq(&self, other: &Self) -> (res: bool) {
        self.0 == other.0
    }
}

impl Eq for JobId {

}

impl vstd::std_specs::cmp::PartialEqSpecImpl for JobId {
    open spec fn obeys_eq_spec() -> bool {
        true
    }

    open spec fn eq_spec(&self, other: &Self) -> bool {
        self@ == other@
    }
}

impl Default for JobId {
    /// A fresh id: a version 7 UUID for the current time, so ids made in different
    /// milliseconds sort by the time they were made.
    fn default() -> (res: Self)
        ensures
            exists|t: Timestamp|
                #[trigger] valid_instant(t) && uuid_v7_text(res@, v7_millis(t.secs as u64, t.nanos)),
    {
        JobId(new_v7_id_text())
    }
}

impl JobId {
    /// The id with the given text.
    pub fn from_string(value: String) -> (res: Self)
        ensures
            res@ == value@,
    {
        JobId(value)
    }

    /// The id with the given text.
    pub fn from_str(value: &str) -> (res: Self)
        ensures
            res@ == value@,
    {
        JobId(value.to_owned())
    }

    /// The text of the id.
    pub fn as_str(&self) -> (res: &str)
        ensures
            res@ == self@,
    {
        self.0.as_str()
    }

    /// The text of the id, owned.
    pub fn to_string(&self) -> (res: String)
        ensures
            res@ == self@,
    {
        self.0.clone()
    }

    /// Whether the id is the empty text.
    pub fn is_empty(&self) -> (res: bool)
        ensures
            res == (self@.len() == 0),
    {
        self.0.as_str().is_empty()
    }
}

/// The state of a job: running with a process id, or exited with a status.
#[derive(Debug, Clone, Copy, PartialEq, Eq, Structural)]
pub enum JobState {
    Running { pid: Pid },
    Exited { status: ExitStatus },
}

impl JobState {
    /// The exited state with the given status.
    pub fn exited<S: Into<ExitStatus>>(status: S) -> (res: Self)
        ensures
            <S as vstd::std_specs::convert::IntoSpec<ExitStatus>>::obeys_into_spec() ==> res
                == (JobState::Exited { status: <S as vstd::std_specs::convert::IntoSpec<ExitStatus>>::into_spec(status) }),
            res is Exited,
    {
        JobState::Exited { status: status.into() }
    }

    /// Whether the job is running.
    pub fn is_running(&self) -> (res: bool)
        ensures
            res == (*self is Running),
    {
        matches!(self, JobState::Running { .. })
    }

    /// Whether the job has exited.
    pub fn is_exited(&self) -> (res: bool)
        ensures
            res == (*self is Exited),
    {
        matches!(self, JobState::Exited { .. })
    }
}

/// A process id. Process ids are ordered by their numbers.
#[derive(Debug, Clone, Copy, PartialEq, Eq, Structural, Ord)]
pub struct Pid {
    pub pid: u32,
}

/// How two numbers are ordered.
pub open spec fn order_of(a: u32, b: u32) -> Ordering {
    if a < b {
        Ordering::Less
    } else if a == b {
        Ordering::Equal
    } else {
        Ordering::Greater
    }
}

impl PartialOrd for Pid {
    fn partial_cmp(&self, other: &Self) -> (res: Option<Ordering>) {
        if self.pid < other.pid {
            Some(Ordering::Less)
        } else if self.pid == other.pid {
            Some(Ordering::Equal)
        } else {
            Some(Ordering::Greater)
        }
    }
}

impl vstd::std_specs::cmp::PartialOrdSpecImpl for Pid {
    open spec fn obeys_partial_cmp_spec() -> bool {
        true
    }

    open spec fn partial_cmp_spec(&self, other: &Self) -> Option<Ordering> {
        Some(order_of(self.pid, other.pid))
    }
}

/// Process ids compare as their numbers do.
pub proof fn lemma_pid_order(a: u32, b: u32)
    ensures
        (Pid { pid: a }).partial_cmp_spec(&(Pid { pid: b })) == Some(order_of(a, b)),
        ((Pid { pid: a }) == (Pid { pid: b })) == (a == b),
{
}

impl From<u32> for Pid {
    fn from(value: u32) -> (res: Self) {
        Pid { pid: value }
    }
}

impl vstd::std_specs::convert::FromSpecImpl<u32> for Pid {
    open spec fn obeys_from_spec() -> bool {
        true
    }

    open spec fn from_spec(v: u32) -> Self {
        Pid { pid: v }
    }
}

impl Pid {
    /// The process id with the given number.
    pub fn new(pid: u32) -> (res: Self)
        ensures
            res.pid == pid,
    {
        Pid { pid }
    }
}

/// How a process ended: its exit code, if it exited with one, and the signal that terminated
/// it, if one did.
#[derive(Debug, Clone, Copy, PartialEq, Eq, Structural)]
pub struct ExitStatus {
    pub code: Option<i32>,
    pub signal: Option<i32>,
}

impl From<i32> for ExitStatus {
    fn from(value: i32) -> (res: Self) {
        ExitStatus { code: Some(value), signal: None }
    }
}

impl vstd::std_specs::convert::FromSpecImpl<i32> for ExitStatus {
    open spec fn obeys_from_spec() -> bool {
        true
    }

    open spec fn from_spec(v: i32) -> Self {
        ExitStatus { code: Some(v), signal: None }
    }
}

/// Who killed a job, and when.
#[derive(Debug)]
pub struct JobKilled {
    pub killed_at: Timestamp,
    pub user: User,
}

impl Clone for JobKilled {
    fn clone(&self) -> (res: Self)
        ensures
            res == *self,
    {
        JobKilled { killed_at: self.killed_at, user: self.user.clone() }
    }
}

} // verus!

use vstd::prelude::*;
use crate::job::Job;
use crate::session::{ConnectError, ExecError, RemoteSession};

verus! {

/// How many units run at once when the caller does not choose.
pub const DEFAULT_POOL_SIZE: usize = 5;

/// Why one unit of work failed.
#[derive(Clone, Copy, Debug, PartialEq, Eq, Structural)]
pub enum UnitError {
    Connect(ConnectError),
    Exec(ExecError),
}

/// Why a dispatch was refused before any unit ran.
#[derive(Clone, Copy, Debug, PartialEq, Eq, Structural)]
pub enum DispatchError {
    /// No host or no job was chosen.
    SelectionIncomplete,
}

/// One job to run on one host, numbered by its place in the plan.
pub struct WorkUnit {
    pub index: usize,
    pub host: String,
    pub job: Job,
}

/// What one unit produced: the command's output, or why it failed.
pub struct JobResult {
    pub index: usize,
    pub outcome: Result<String, UnitError>,
}

/// Whether a plan can be made from `hosts` hosts and `jobs` jobs.
pub open spec fn selection_complete(hosts: nat, jobs: nat) -> bool {
    hosts > 0 && jobs > 0
}

/// `units` pairs every host with every job, host by host: unit `i` runs job
/// `i % jobs.len()` on host `i / jobs.len()`, and carries the number `i`.
pub open spec fn is_plan(units: Seq<WorkUnit>, hosts: Seq<String>, jobs: Seq<Job>) -> bool {
    &&& units.len() == hosts.len() * jobs.len()
    &&& forall|i: int|
        0 <= i < units.len() ==> {
            &&& (#[trigger] units[i]).index == i
            &&& units[i].host == hosts[i / jobs.len() as int]
            &&& units[i].job@ == jobs[i % jobs.len() as int]@
        }
}

/// Builds one unit for each (host, job) pair. With no host or no job there is
/// nothing to run, and the dispatch is refused.
pub fn plan_units(hosts: &Vec<String>, jobs: &Vec<Job>) -> (r: Result<Vec<WorkUnit>, DispatchError>)
    requires
        hosts.len() * jobs.len() <= usize::MAX,
    ensures
        match r {
            Ok(units) => selection_complete(hosts.len() as nat, jobs.len() as nat) && is_plan(
                units@,
                hosts@,
                jobs@,
            ),
            Err(e) => !selection_complete(hosts.len() as nat, jobs.len() as nat) && e
                == DispatchError::SelectionIncomplete,
        },
{
    let n = hosts.len();
    let m = jobs.len();
    if n == 0 || m == 0 {
        return Err(DispatchError::SelectionIncomplete);
    }
    let total: usize = n * m;
    let mut units: Vec<WorkUnit> = Vec::new();
    let mut i: usize = 0;
    while i < total
        invariant
            n == hosts.len(),
            m == jobs.len(),
            m > 0,
            total == n * m,
            i <= total,
            units.len() == i,
            forall|k: int|
                0 <= k < i ==> {
                    &&& (#[trigger] units@[k]).index == k
                    &&& units@[k].host == hosts@[k / m as int]
                    &&& units@[k].job@ == jobs@[k % m as int]@
                },
        decreases total - i,
    {
        assert(i / m < n) by (nonlinear_arith)
            requires
                i < n * m,
                m > 0,
        ;
        let h = i / m;
        let j = i % m;
        units.push(WorkUnit { index: i, host: hosts[h].clone(), job: jobs[j].duplicate() });
        i = i + 1;
    }
    Ok(units)
}

/// Runs one unit: opens a fresh session to the unit's host through `connect`,
/// and if that succeeds runs the unit's job on it through `exec`. A failed
/// connection ends the unit without running anything. The result carries the
/// unit's number, and whatever happened to this unit is reported in it rather
/// than passed on.
pub fn run_unit<C, FC, FE>(unit: &WorkUnit, connect: FC, exec: FE) -> (r: JobResult)
    where
        FC: FnOnce(&String) -> Result<C, ConnectError>,
        FE: FnOnce(&C, &Job) -> Result<String, ExecError>,
    requires
        connect.requires((&unit.host,)),
        forall|c: C| exec.requires((&c, &unit.job)),
    ensures
        r.index == unit.index,
        match r.outcome {
            Err(UnitError::Connect(e)) => connect.ensures(
                (&unit.host,),
                Err::<C, ConnectError>(e),
            ),
            Err(UnitError::Exec(e)) => exists|c: C|
                #[trigger] connect.ensures((&unit.host,), Ok::<C, ConnectError>(c)) && exec.ensures(
                    (&c, &unit.job),
                    Err::<String, ExecError>(e),
                ),
            Ok(out) => exists|c: C|
                #[trigger] connect.ensures((&unit.host,), Ok::<C, ConnectError>(c)) && exec.ensures(
                    (&c, &unit.job),
                    Ok::<String, ExecError>(out),
                ),
        },
{
    let mut session: RemoteSession<C> = RemoteSession::new(unit.host.clone());
    match session.connect(connect) {
        Err(e) => {
            return JobResult { index: unit.index, outcome: Err(UnitError::Connect(e)) };
        },
        Ok(()) => {},
    }
    match session.execute(&unit.job, exec) {
        Ok(out) => JobResult { index: unit.index, outcome: Ok(out) },
        Err(e) => JobResult { index: unit.index, outcome: Err(UnitError::Exec(e)) },
    }
}

} // verus!

use basecamp::dispatch::{plan_units, run_unit, DispatchError, JobResult, UnitError, WorkUnit, DEFAULT_POOL_SIZE};
use basecamp::job::Job;
use basecamp::session::{ConnectError, ExecError};
use basecamp::store::ResultStore;
use basecamp::timer::Timer;
use std::sync::{Arc, Mutex};
use std::time::{Duration, Instant};
use threadpool::ThreadPool;

fn hosts(names: &[&str]) -> Vec<String> {
    names.iter().map(|s| s.to_string()).collect()
}

fn jobs(cmds: &[&str]) -> Vec<Job> {
    cmds.iter().map(|s| Job::new(s.to_string())).collect()
}

fn run_all<F>(units: &[WorkUnit], connect_ok: F) -> ResultStore
where
    F: Fn(&str) -> bool,
{
    let mut store = ResultStore::new(units.len());
    for u in units {
        let r = run_unit(
            u,
            |h: &String| if connect_ok(h) { Ok(h.clone()) } else { Err(ConnectError::Network) },
            |c: &String, j: &Job| Ok(format!("{}@{}", j.command(), c)),
        );
        assert!(store.record(r));
    }
    store
}

#[test]
fn plan_is_cross_product() {
    let h = hosts(&["a", "b"]);
    let j = jobs(&["x", "y", "z"]);
    let units = plan_units(&h, &j).unwrap();
    assert_eq!(units.len(), 6);
    for (i, u) in units.iter().enumerate() {
        assert_eq!(u.index, i);
        assert_eq!(u.host, h[i / 3]);
        assert_eq!(u.job.command(), j[i % 3].command());
    }
}

#[test]
fn dispatch_yields_one_result_per_unit() {
    let h = hosts(&["a", "b", "c"]);
    let j = jobs(&["x", "y"]);
    let units = plan_units(&h, &j).unwrap();
    let mut store = ResultStore::new(units.len());
    // results arrive in an order other than the plan's
    for k in [4usize, 1, 5, 0, 3, 2] {
        let r = run_unit(&units[k], |h: &String| Ok(h.clone()), |c: &String, j: &Job| Ok(format!("{}@{}", j.command(), c)));
        assert_eq!(r.index, k);
        assert!(store.record(r));
    }
    assert!(store.is_complete());
    assert_eq!(store.recorded_count(), 6);
    let rows = store.report_rows();
    assert_eq!(rows.len(), 6);
    for (i, row) in rows.iter().enumerate() {
        assert_eq!(row.0, i);
    }
    assert_eq!(rows[0].1, "x@a");
    assert_eq!(rows[3].1, "y@b");
    assert_eq!(rows[5].1, "y@c");
}

#[test]
fn empty_hosts_is_selection_incomplete() {
    let r = plan_units(&Vec::new(), &jobs(&["ls"]));
    assert!(matches!(r, Err(DispatchError::SelectionIncomplete)));
}

#[test]
fn empty_jobs_is_selection_incomplete() {
    let r = plan_units(&hosts(&["a"]), &Vec::new());
    assert!(matches!(r, Err(DispatchError::SelectionIncomplete)));
}

#[test]
fn empty_selection_makes_no_connection() {
    let attempts = std::cell::Cell::new(0usize);
    let units = plan_units(&Vec::new(), &jobs(&["ls"])).unwrap_or_default();
    let mut store = ResultStore::new(units.len());
    for u in &units {
        let r = run_unit(u, |_h: &String| {
            attempts.set(attempts.get() + 1);
            Ok(())
        }, |_c: &(), _j: &Job| Ok(String::new()));
        store.record(r);
    }
    assert!(units.is_empty());
    assert_eq!(attempts.get(), 0);
    assert_eq!(store.recorded_count(), 0);
}

#[test]
fn failing_host_does_not_stop_others() {
    let h = hosts(&["down", "up"]);
    let j = jobs(&["one", "two"]);
    let units = plan_units(&h, &j).unwrap();
    let store = run_all(&units, |h| h == "up");
    assert!(store.is_complete());
    assert_eq!(store.recorded_count(), 4);
    let rows = store.report_rows();
    assert_eq!(rows[0].1, "connect failed: host unreachable");
    assert_eq!(rows[1].1, "connect failed: host unreachable");
    assert_eq!(rows[2].1, "one@up");
    assert_eq!(rows[3].1, "two@up");
}

#[test]
fn exec_failure_is_recorded() {
    let units = plan_units(&hosts(&["h"]), &jobs(&["bad"])).unwrap();
    let r = run_unit(&units[0], |_h: &String| Ok(1u8), |_c: &u8, _j: &Job| Err(ExecError::CommandRejected));
    assert_eq!(r.index, 0);
    assert_eq!(r.outcome, Err(UnitError::Exec(ExecError::CommandRejected)));
    assert_eq!(UnitError::Exec(ExecError::CommandRejected).message(), "exec failed: command rejected");
}

#[test]
fn connect_failure_skips_exec() {
    let units = plan_units(&hosts(&["h"]), &jobs(&["ls"])).unwrap();
    let ran = std::cell::Cell::new(false);
    let r = run_unit(&units[0], |_h: &String| Err::<u8, _>(ConnectError::HandshakeFailed), |_c: &u8, _j: &Job| { ran.set(true); Ok(String::new()) });
    assert_eq!(r.outcome, Err(UnitError::Connect(ConnectError::HandshakeFailed)));
    assert!(!ran.get());
}

#[test]
fn single_host_single_job_echo() {
    let timer = Timer::new();
    let units = plan_units(&hosts(&["hostA"]), &jobs(&["echo hi"])).unwrap();
    assert_eq!(units.len(), 1);
    let mut store = ResultStore::new(units.len());
    let r = run_unit(&units[0], |_h: &String| Ok(()), |_c: &(), j: &Job| {
        assert_eq!(j.command(), "echo hi");
        Ok("hi\n".to_string())
    });
    assert!(store.record(r));
    assert_eq!(store.recorded_count(), 1);
    assert_eq!(store.report_rows(), vec![(0usize, "hi\n".to_string())]);
    assert!(timer.ellapsed() >= Duration::ZERO);
}

#[test]
fn duplicate_and_out_of_range_results_are_refused() {
    let mut store = ResultStore::new(2);
    assert_eq!(store.capacity(), 2);
    assert!(store.record(JobResult { index: 1, outcome: Ok("a".to_string()) }));
    assert!(!store.record(JobResult { index: 1, outcome: Ok("b".to_string()) }));
    assert!(!store.record(JobResult { index: 2, outcome: Ok("c".to_string()) }));
    assert_eq!(store.recorded_count(), 1);
    assert!(!store.is_complete());
    let rows = store.report_rows();
    assert_eq!(rows, vec![(0usize, "no result".to_string()), (1usize, "a".to_string())]);
}

#[test]
fn empty_store_is_complete() {
    let store = ResultStore::new(0);
    assert!(store.is_complete());
    assert_eq!(store.recorded_count(), 0);
    assert!(store.report_rows().is_empty());
}

#[test]
fn default_pool_is_small() {
    assert_eq!(DEFAULT_POOL_SIZE, 5);
}

#[test]
fn pool_of_two_bounds_parallelism() {
    let d = Duration::from_millis(200);
    let units = plan_units(&hosts(&["a"]), &jobs(&["1", "2", "3", "4", "5"])).unwrap();
    assert_eq!(units.len(), 5);
    let store = Arc::new(Mutex::new(ResultStore::new(units.len())));
    let pool = ThreadPool::new(2);
    let start = Instant::now();
    for unit in units {
        let store = Arc::clone(&store);
        pool.execute(move || {
            let r = run_unit(&unit, |_h: &String| Ok(()), |_c: &(), j: &Job| {
                let t = Instant::now();
                while t.elapsed() < d {}
                Ok(j.command().to_string())
            });
            store.lock().unwrap().record(r);
        });
    }
    pool.join();
    let elapsed = start.elapsed();
    assert!(store.lock().unwrap().is_complete());
    // two at a time: three rounds, never five, never fewer
    assert!(elapsed >= d * 3, "{:?}", elapsed);
    assert!(elapsed < d * 3 + Duration::from_millis(300), "{:?}", elapsed);
}

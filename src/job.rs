use vstd::prelude::*;

verus! {

/// A shell command to run on a remote host; its text is never empty.
pub struct Job {
    task: String,
}

impl View for Job {
    type V = Seq<char>;

    closed spec fn view(&self) -> Seq<char> {
        self.task@
    }
}

impl Job {
    #[verifier::type_invariant]
    spec fn has_command(&self) -> bool {
        self.task@.len() > 0
    }

    /// A job that runs `task`.
    pub fn new(task: String) -> (r: Job)
        requires
            task@.len() > 0,
        ensures
            r@ == task@,
    {
        Job { task }
    }

    /// Replaces the command that the job runs.
    pub fn assign_task(&mut self, task: String)
        requires
            task@.len() > 0,
        ensures
            final(self)@ == task@,
    {
        self.task = task;
    }

    /// The command text.
    pub fn command(&self) -> (r: &str)
        ensures
            r@ == self@,
            r@.len() > 0,
    {
        proof {
            use_type_invariant(self);
        }
        self.task.as_str()
    }

    /// A second job with the same command.
    pub fn duplicate(&self) -> (r: Job)
        ensures
            r@ == self@,
    {
        proof {
            use_type_invariant(self);
        }
        Job { task: self.task.clone() }
    }
}

} // verus!

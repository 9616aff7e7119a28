//! The health check of a container.

use vstd::prelude::*;

verus! {

/// Accumulates the fields of a [`HealthCheck`].
#[derive(Debug)]
pub struct HealthCheckBuilder {
    pub test: Vec<String>,
    pub interval: Option<u64>,
    pub timeout: Option<u64>,
    pub retries: Option<u64>,
    pub start_period: Option<u64>,
}

impl View for HealthCheckBuilder {
    type V = HealthCheckModel;

    open spec fn view(&self) -> HealthCheckModel {
        HealthCheckModel {
            test: self.test.deep_view(),
            interval: self.interval,
            timeout: self.timeout,
            retries: self.retries,
            start_period: self.start_period,
        }
    }
}

impl DeepView for HealthCheckBuilder {
    type V = HealthCheckModel;

    open spec fn deep_view(&self) -> HealthCheckModel {
        self@
    }
}

/// How and how often the health of a container is checked.
#[derive(Debug)]
pub struct HealthCheck {
    pub test: Vec<String>,
    pub interval: Option<u64>,
    pub timeout: Option<u64>,
    pub retries: Option<u64>,
    pub start_period: Option<u64>,
}

/// What a [`HealthCheck`] or its builder holds.
pub struct HealthCheckModel {
    pub test: Seq<Seq<char>>,
    pub interval: Option<u64>,
    pub timeout: Option<u64>,
    pub retries: Option<u64>,
    pub start_period: Option<u64>,
}

impl View for HealthCheck {
    type V = HealthCheckModel;

    open spec fn view(&self) -> HealthCheckModel {
        HealthCheckModel {
            test: self.test.deep_view(),
            interval: self.interval,
            timeout: self.timeout,
            retries: self.retries,
            start_period: self.start_period,
        }
    }
}

impl DeepView for HealthCheck {
    type V = HealthCheckModel;

    open spec fn deep_view(&self) -> HealthCheckModel {
        self@
    }
}

impl Clone for HealthCheck {
    fn clone(&self) -> (res: Self)
        ensures
            res@ == self@,
    {
        let test = self.test.clone();
        assert(test.deep_view() =~= self.test.deep_view());
        HealthCheck {
            test,
            interval: self.interval,
            timeout: self.timeout,
            retries: self.retries,
            start_period: self.start_period,
        }
    }
}

impl HealthCheckBuilder {
    /// A builder with no command and no timing.
    pub fn new() -> (b: Self)
        ensures
            b@ == (HealthCheckModel {
                test: Seq::empty(),
                interval: None,
                timeout: None,
                retries: None,
                start_period: None,
            }),
    {
        let b = HealthCheckBuilder {
            test: Vec::new(),
            interval: None,
            timeout: None,
            retries: None,
            start_period: None,
        };
        assert(b.test.deep_view() =~= Seq::<Seq<char>>::empty());
        b
    }

    /// Appends one word to the command of the check.
    pub fn test(&mut self, cmd: &str) -> (ret: &mut Self)
        ensures
            ret@ == (HealthCheckModel { test: old(self)@.test.push(cmd@), ..old(self)@ }),
            *final(self) == *final(ret),
    {
        self.test.push(cmd.to_owned());
        assert(self.test.deep_view() =~= old(self)@.test.push(cmd@));
        self
    }

    /// Sets the time between two checks, in nanoseconds.
    pub fn interval(&mut self, interval: Option<u64>) -> (ret: &mut Self)
        ensures
            ret@ == (HealthCheckModel { interval, ..old(self)@ }),
            *final(self) == *final(ret),
    {
        self.interval = interval;
        self
    }

    /// Sets the time after which a check counts as hung, in nanoseconds.
    pub fn timeout(&mut self, interval: Option<u64>) -> (ret: &mut Self)
        ensures
            ret@ == (HealthCheckModel { timeout: interval, ..old(self)@ }),
            *final(self) == *final(ret),
    {
        self.timeout = interval;
        self
    }

    /// Sets the number of failures after which the container counts as unhealthy.
    pub fn retries(&mut self, interval: Option<u64>) -> (ret: &mut Self)
        ensures
            ret@ == (HealthCheckModel { retries: interval, ..old(self)@ }),
            *final(self) == *final(ret),
    {
        self.retries = interval;
        self
    }

    /// Sets the time a container has to start before failures count, in nanoseconds.
    pub fn start_period(&mut self, interval: Option<u64>) -> (ret: &mut Self)
        ensures
            ret@ == (HealthCheckModel { start_period: interval, ..old(self)@ }),
            *final(self) == *final(ret),
    {
        self.start_period = interval;
        self
    }

    /// The health check with the fields set so far.
    pub fn build(&self) -> (res: HealthCheck)
        ensures
            res@ == self@,
    {
        let test = self.test.clone();
        assert(test.deep_view() =~= self.test.deep_view());
        HealthCheck {
            test,
            interval: self.interval,
            timeout: self.timeout,
            retries: self.retries,
            start_period: self.start_period,
        }
    }
}

impl HealthCheck {
    /// A builder with no command and no timing.
    pub fn new() -> (b: HealthCheckBuilder)
        ensures
            b@ == (HealthCheckModel {
                test: Seq::empty(),
                interval: None,
                timeout: None,
                retries: None,
                start_period: None,
            }),
    {
        HealthCheckBuilder::new()
    }
}

} // verus!

use crate::chart::{
    lower_bound_of, middle_of, upper_bound_of, y_axis_bounds, AxisBounds,
};
use crate::config::Config;
use crate::history::{grid_of, max_of, min_of, pushed, HistoryBuffer};
use crate::sample::{is_signed_power, signed_power_of, RawReading, Snapshot};
use vstd::prelude::*;

verus! {

/// Why the power sources could not be listed or read.
#[derive(Clone, Copy, Debug, PartialEq, Eq, Structural)]
pub enum ProviderError {
    /// The host's power-source service could not be reached.
    ManagerUnavailable,
    /// The service was reached but could not list its sources.
    EnumerationFailed,
    /// The first source was listed but could not be read.
    SourceUnreadable,
}

/// Why a tick took no sample. Each of these is fatal to the dashboard: it has
/// nothing left to report on.
#[derive(Clone, Copy, Debug, PartialEq, Eq, Structural)]
pub enum TickError {
    /// The provider failed.
    Provider(ProviderError),
    /// The provider listed no power source at all.
    NoSource,
}

/// What the program reports when it gives up on `error`.
pub open spec fn diagnostic_of(error: TickError) -> Seq<char> {
    match error {
        TickError::Provider(ProviderError::ManagerUnavailable) => "Expected battery manager"@,
        TickError::Provider(ProviderError::EnumerationFailed) => "Expected at least one battery"@,
        TickError::Provider(ProviderError::SourceUnreadable) => "Expected battery"@,
        TickError::NoSource => "Expected at least one battery"@,
    }
}

impl TickError {
    /// What the program reports when it gives up on this error.
    pub fn diagnostic(&self) -> (message: &'static str)
        ensures
            message@ == diagnostic_of(*self),
    {
        match self {
            TickError::Provider(ProviderError::ManagerUnavailable) => "Expected battery manager",
            TickError::Provider(ProviderError::EnumerationFailed) => "Expected at least one battery",
            TickError::Provider(ProviderError::SourceUnreadable) => "Expected battery",
            TickError::NoSource => "Expected at least one battery",
        }
    }
}

/// The state of the dashboard: the run parameters, the latest snapshot and
/// the history of signed power values. The history always has the configured
/// capacity, every value in it is a signed power that some snapshot gave,
/// and the snapshot is well formed.
#[derive(Debug)]
pub struct App {
    snapshot: Snapshot,
    power_bar: HistoryBuffer,
    config: Config,
}

impl App {
    #[verifier::type_invariant]
    spec fn valid(self) -> bool {
        &&& self.power_bar.spec_capacity() == self.config.spec_buf_capacity()
        &&& forall|i: int|
            0 <= i < self.power_bar@.len() ==> is_signed_power(#[trigger] self.power_bar@[i])
        &&& self.snapshot.wf()
    }

    /// The latest snapshot.
    pub closed spec fn spec_snapshot(&self) -> Snapshot {
        self.snapshot
    }

    /// The history of signed power values.
    pub closed spec fn spec_power_bar(&self) -> HistoryBuffer {
        self.power_bar
    }

    /// The run parameters.
    pub closed spec fn spec_config(&self) -> Config {
        self.config
    }

    /// The state before the first tick: a blank snapshot and an empty history
    /// with the configured capacity.
    pub fn new(config: Config) -> (app: App)
        ensures
            app.spec_config() == config,
            app.spec_snapshot().is_blank(),
            app.spec_power_bar()@ == Seq::<i64>::empty(),
            app.spec_power_bar().spec_capacity() == config.spec_buf_capacity(),
    {
        let power_bar = HistoryBuffer::new(config.buf_capacity());
        App { snapshot: Snapshot::blank(), power_bar: power_bar.unwrap(), config }
    }

    /// One tick, given what listing the power sources returned. Only the
    /// first source counts. It is normalised into the new snapshot, and its
    /// signed power enters the history. Where the provider failed or listed
    /// nothing, the error says so and the state stays as it was.
    pub fn on_tick(&mut self, sources: Result<Vec<RawReading>, ProviderError>) -> (r: Result<
        (),
        TickError,
    >)
        ensures
            final(self).spec_config() == old(self).spec_config(),
            final(self).spec_power_bar().spec_capacity() == old(
                self,
            ).spec_power_bar().spec_capacity(),
            match sources {
                Err(e) => r == Err::<(), TickError>(TickError::Provider(e)) && *final(self) == *old(
                    self,
                ),
                Ok(list) => if list.len() == 0 {
                    r == Err::<(), TickError>(TickError::NoSource) && *final(self) == *old(self)
                } else {
                    &&& r == Ok::<(), TickError>(())
                    &&& final(self).spec_snapshot().is_normal_form_of(list[0])
                    &&& final(self).spec_power_bar()@ == pushed(
                        old(self).spec_power_bar()@,
                        old(self).spec_power_bar().spec_capacity() as nat,
                        signed_power_of(list[0].state, list[0].power_mw) as i64,
                    )
                },
            },
    {
        proof {
            use_type_invariant(&*self);
        }
        match sources {
            Err(e) => Err(TickError::Provider(e)),
            Ok(list) => {
                let mut list = list;
                if list.len() == 0 {
                    Err(TickError::NoSource)
                } else {
                    let first = list.remove(0);
                    let snapshot = Snapshot::normalize(first);
                    let signed = snapshot.signed_power();
                    let spare = HistoryBuffer::new(self.config.buf_capacity());
                    let mut power_bar = spare.unwrap();
                    self.snapshot = snapshot;
                    core::mem::swap(&mut self.power_bar, &mut power_bar);
                    power_bar.push(signed);
                    core::mem::swap(&mut self.power_bar, &mut power_bar);
                    Ok(())
                }
            },
        }
    }

    /// The latest snapshot; it is well formed.
    pub fn snapshot(&self) -> (s: &Snapshot)
        ensures
            *s == self.spec_snapshot(),
            s.wf(),
    {
        proof {
            use_type_invariant(self);
        }
        &self.snapshot
    }

    /// The history of signed power values. It has the configured capacity,
    /// and each of its values is a signed power.
    pub fn power_bar(&self) -> (h: &HistoryBuffer)
        ensures
            *h == self.spec_power_bar(),
            h.spec_capacity() == self.spec_config().spec_buf_capacity(),
            forall|i: int| 0 <= i < h@.len() ==> is_signed_power(#[trigger] h@[i]),
    {
        proof {
            use_type_invariant(self);
        }
        &self.power_bar
    }

    /// The run parameters.
    pub fn config(&self) -> (c: &Config)
        ensures
            *c == self.spec_config(),
    {
        &self.config
    }

    /// The points of the power chart, newest value first: the newest stands
    /// at the right edge, one less than the capacity, and each older one a
    /// step further to the left.
    pub fn get_power_bar_grid(&self) -> (grid: Vec<(usize, i64)>)
        ensures
            grid@ == grid_of(
                self.spec_power_bar()@,
                self.spec_config().spec_buf_capacity() as nat,
            ),
    {
        proof {
            use_type_invariant(self);
        }
        self.power_bar.project_to_grid()
    }

    /// The range of the chart's vertical axis, in milliwatts: from the
    /// smallest value held less the configured clearance, or from zero where
    /// every value is above zero, up to the largest value held plus the
    /// clearance, with the middle of the two between them.
    pub fn y_axis_bounds(&self) -> (b: AxisBounds)
        ensures
            b.upper == upper_bound_of(
                max_of(self.spec_power_bar()@),
                self.spec_config().spec_graph_clearance(),
            ),
            b.lower == lower_bound_of(
                min_of(self.spec_power_bar()@),
                self.spec_config().spec_graph_clearance(),
            ),
            b.middle == middle_of(b.lower as int, b.upper as int),
            b.lower <= b.middle <= b.upper,
    {
        proof {
            use_type_invariant(self);
        }
        y_axis_bounds(
            self.power_bar.max_value(),
            self.power_bar.min_value(),
            self.config.graph_clearance(),
        )
    }
}

} // verus!

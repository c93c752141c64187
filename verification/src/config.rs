use vstd::prelude::*;

verus! {

/// Milliseconds between two samples unless configured otherwise.
pub const DEFAULT_TICK_RATE_MS: u64 = 1500;

/// Number of samples kept unless configured otherwise.
pub const DEFAULT_BUF_CAPACITY: usize = 100;

/// Margin around the plotted extrema, in milliwatts, unless configured otherwise.
pub const DEFAULT_GRAPH_CLEARANCE_MW: u32 = 1000;

/// Why a set of run parameters was turned down.
#[derive(Clone, Copy, Debug, PartialEq, Eq, Structural)]
pub enum ConfigError {
    /// The history would hold no sample at all.
    ZeroCapacity,
    /// The sampling interval is empty.
    ZeroInterval,
}

/// The run parameters. They are fixed once built: the sampling interval is
/// positive and the history keeps at least one sample.
#[derive(Clone, Copy, Debug)]
pub struct Config {
    tick_rate: u64,
    buf_capacity: usize,
    graph: bool,
    graph_clearance: u32,
}

impl Config {
    #[verifier::type_invariant]
    spec fn valid(self) -> bool {
        self.tick_rate > 0 && self.buf_capacity >= 1
    }

    /// The sampling interval in milliseconds.
    pub closed spec fn spec_tick_rate(&self) -> u64 {
        self.tick_rate
    }

    /// The number of samples the history keeps.
    pub closed spec fn spec_buf_capacity(&self) -> usize {
        self.buf_capacity
    }

    /// Whether the chart is drawn.
    pub closed spec fn spec_graph(&self) -> bool {
        self.graph
    }

    /// The margin around the plotted extrema, in milliwatts.
    pub closed spec fn spec_graph_clearance(&self) -> u32 {
        self.graph_clearance
    }

    /// Checks the parameters and builds the configuration. A capacity of zero
    /// is reported first, then an interval of zero.
    pub fn new(tick_rate: u64, buf_capacity: usize, graph: bool, graph_clearance: u32) -> (r: Result<
        Config,
        ConfigError,
    >)
        ensures
            buf_capacity == 0 ==> r == Err::<Config, ConfigError>(ConfigError::ZeroCapacity),
            buf_capacity != 0 && tick_rate == 0 ==> r == Err::<Config, ConfigError>(
                ConfigError::ZeroInterval,
            ),
            buf_capacity != 0 && tick_rate != 0 ==> r is Ok,
            r matches Ok(c) ==> {
                &&& c.spec_tick_rate() == tick_rate
                &&& c.spec_buf_capacity() == buf_capacity
                &&& c.spec_graph() == graph
                &&& c.spec_graph_clearance() == graph_clearance
            },
    {
        if buf_capacity == 0 {
            Err(ConfigError::ZeroCapacity)
        } else if tick_rate == 0 {
            Err(ConfigError::ZeroInterval)
        } else {
            Ok(Config { tick_rate, buf_capacity, graph, graph_clearance })
        }
    }

    /// The sampling interval in milliseconds; never zero.
    #[verifier::when_used_as_spec(spec_tick_rate)]
    pub fn tick_rate(&self) -> (r: u64)
        ensures
            r == self.spec_tick_rate(),
            r > 0,
    {
        proof {
            use_type_invariant(self);
        }
        self.tick_rate
    }

    /// The margin added above the largest and below the smallest plotted
    /// value, in milliwatts.
    #[verifier::when_used_as_spec(spec_graph_clearance)]
    pub fn graph_clearance(&self) -> (r: u32)
        ensures
            r == self.spec_graph_clearance(),
    {
        self.graph_clearance
    }

    /// The number of samples the history keeps; at least one.
    #[verifier::when_used_as_spec(spec_buf_capacity)]
    pub fn buf_capacity(&self) -> (r: usize)
        ensures
            r == self.spec_buf_capacity(),
            r >= 1,
    {
        proof {
            use_type_invariant(self);
        }
        self.buf_capacity
    }

    /// The largest index into a full history: one less than the capacity.
    pub fn upper_index(&self) -> (r: usize)
        ensures
            r == self.spec_buf_capacity() - 1,
    {
        proof {
            use_type_invariant(self);
        }
        self.buf_capacity - 1
    }

    /// Whether the chart is drawn.
    #[verifier::when_used_as_spec(spec_graph)]
    pub fn graph(&self) -> (r: bool)
        ensures
            r == self.spec_graph(),
    {
        self.graph
    }
}

impl Default for Config {
    /// Samples every 1500 ms, keeps 100 samples, draws no chart and leaves a
    /// margin of one watt.
    fn default() -> (c: Self)
        ensures
            c.spec_tick_rate() == DEFAULT_TICK_RATE_MS,
            c.spec_buf_capacity() == DEFAULT_BUF_CAPACITY,
            c.spec_graph() == false,
            c.spec_graph_clearance() == DEFAULT_GRAPH_CLEARANCE_MW,
    {
        Config {
            tick_rate: DEFAULT_TICK_RATE_MS,
            buf_capacity: DEFAULT_BUF_CAPACITY,
            graph: false,
            graph_clearance: DEFAULT_GRAPH_CLEARANCE_MW,
        }
    }
}

} // verus!

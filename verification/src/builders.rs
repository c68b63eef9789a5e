//! Configuration builders. The engine and the store window are wired
//! from plain settings collected through these builders; the build steps
//! that open connections live with the rest of the process's I/O.

use vstd::prelude::*;

verus! {

/// Settings of the whole engine: the shared scrape-concurrency bound,
/// the store endpoint, the pool size and the channel buffer.
pub struct EngineBuilder {
    pub semaphore_size: usize,
    pub redis_url: String,
    pub max_size: u32,
    pub channel_buf: usize,
}

impl Default for EngineBuilder {
    fn default() -> (r: Self)
        ensures
            r.semaphore_size == 0,
            r.redis_url@ == Seq::<char>::empty(),
            r.max_size == 0,
            r.channel_buf == 0,
    {
        EngineBuilder { semaphore_size: 0, redis_url: String::new(), max_size: 0, channel_buf: 0 }
    }
}

impl EngineBuilder {
    pub fn new() -> (r: Self)
        ensures
            r.semaphore_size == 0,
            r.redis_url@ == Seq::<char>::empty(),
            r.max_size == 0,
            r.channel_buf == 0,
    {
        Self::default()
    }

    pub fn semaphore_size(self, semaphore_size: usize) -> (r: Self)
        ensures
            r == (EngineBuilder { semaphore_size, ..self }),
    {
        EngineBuilder { semaphore_size, ..self }
    }

    pub fn redis_url(self, redis_url: String) -> (r: Self)
        ensures
            r == (EngineBuilder { redis_url, ..self }),
    {
        EngineBuilder { redis_url, ..self }
    }

    pub fn max_size(self, max_size: u32) -> (r: Self)
        ensures
            r == (EngineBuilder { max_size, ..self }),
    {
        EngineBuilder { max_size, ..self }
    }

    pub fn channel_buf(self, channel_buf: usize) -> (r: Self)
        ensures
            r == (EngineBuilder { channel_buf, ..self }),
    {
        EngineBuilder { channel_buf, ..self }
    }
}

/// Settings of the store window: endpoint, pool size, channel buffer.
pub struct RedisWindowBuilder {
    pub redis_url: String,
    pub max_size: u32,
    pub channel_buf: usize,
}

impl Default for RedisWindowBuilder {
    fn default() -> (r: Self)
        ensures
            r.redis_url@ == Seq::<char>::empty(),
            r.max_size == 0,
            r.channel_buf == 0,
    {
        RedisWindowBuilder { redis_url: String::new(), max_size: 0, channel_buf: 0 }
    }
}

impl RedisWindowBuilder {
    pub fn new() -> (r: Self)
        ensures
            r.redis_url@ == Seq::<char>::empty(),
            r.max_size == 0,
            r.channel_buf == 0,
    {
        Self::default()
    }

    pub fn max_size(self, size: u32) -> (r: Self)
        ensures
            r == (RedisWindowBuilder { max_size: size, ..self }),
    {
        RedisWindowBuilder { max_size: size, ..self }
    }

    pub fn redis_url(self, url: String) -> (r: Self)
        ensures
            r == (RedisWindowBuilder { redis_url: url, ..self }),
    {
        RedisWindowBuilder { redis_url: url, ..self }
    }

    pub fn channel_buf(self, buf: usize) -> (r: Self)
        ensures
            r == (RedisWindowBuilder { channel_buf: buf, ..self }),
    {
        RedisWindowBuilder { channel_buf: buf, ..self }
    }
}

/// How pooled-connection acquisition backs off: the first delay between
/// attempts, in milliseconds; each further delay grows by the backoff
/// schedule in use.
pub struct PoolAcquireConfig {
    pub init_backoff_ms: u64,
}

} // verus!

//! Cache session properties, held as plain typed values; turning them into
//! the driver's key/value wire form is the native adapter's concern.

use vstd::prelude::*;

verus! {

/// Configuration for a cache request session.
#[derive(Debug)]
pub struct CacheSessionProps {
    pub cache_name: String,
    pub max_msgs: u32,
    pub max_age: u32,
    pub request_reply_timeout_ms: u32,
}

impl Default for CacheSessionProps {
    fn default() -> (r: Self)
        ensures
            r.cache_name@ == Seq::<char>::empty(),
            r.max_msgs == 1u32,
            r.max_age == 0u32,
            r.request_reply_timeout_ms == 10000u32,
    {
        CacheSessionProps {
            cache_name: String::new(),
            max_msgs: 1,
            max_age: 0,
            request_reply_timeout_ms: 10000,
        }
    }
}

impl CacheSessionProps {
    /// Sets the distributed cache name.
    pub fn cache_name(self, cache_name: &str) -> (r: Self)
        ensures
            r.cache_name@ == cache_name@,
            r == (CacheSessionProps { cache_name: r.cache_name, ..self }),
    {
        CacheSessionProps { cache_name: cache_name.to_owned(), ..self }
    }

    /// Sets the most messages returned per request; 0 means no limit.
    pub fn max_msgs(self, max_msgs: u32) -> (r: Self)
        ensures
            r == (CacheSessionProps { max_msgs, ..self }),
    {
        CacheSessionProps { max_msgs, ..self }
    }

    /// Sets the oldest message age returned, in seconds; 0 means no limit.
    pub fn max_age(self, max_age: u32) -> (r: Self)
        ensures
            r == (CacheSessionProps { max_age, ..self }),
    {
        CacheSessionProps { max_age, ..self }
    }

    /// Sets the reply timeout for cache requests, in milliseconds.
    pub fn request_reply_timeout(self, request_reply_timeout_ms: u32) -> (r: Self)
        ensures
            r == (CacheSessionProps { request_reply_timeout_ms, ..self }),
    {
        CacheSessionProps { request_reply_timeout_ms, ..self }
    }
}

} // verus!

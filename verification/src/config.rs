use vstd::prelude::*;

use crate::routes::history::{get_time_series, time_series, TimeSeriesInterval};
use crate::text::{find_char, parse_u16, parse_u16_spec};

verus! {

/// Where the MySQL database is and how to log in.
pub struct MySqlConfig {
    pub host: String,
    pub db_name: String,
    pub user: String,
    pub pass: String,
}

/// Where the redis database is, which database index to use, and how long hashrate
/// series are kept.
pub struct RedisConfig {
    pub host: String,
    pub db_index: u8,
    pub hashrate_ttl_seconds: u32,
}

/// How the pool buckets its statistics: the hashrate interval and the interval of the
/// mined block counts, in seconds.
pub struct StatsConfig {
    pub hashrate_interval_seconds: u32,
    pub mined_blocks_interval: u32,
}

/// The configuration of one coin's pool.
pub struct CoinConfig {
    pub redis: RedisConfig,
    pub mysql: MySqlConfig,
    pub stats: StatsConfig,
}

/// Why a MySQL host cannot be used.
#[derive(Clone, Copy, Debug, PartialEq, Eq, Structural)]
pub enum HostError {
    /// The host has no `:` before a port.
    MissingPort,
    /// What follows the first `:` is not a port number.
    InvalidPort,
}

/// A `host:port` text split at its first `:`: the host name before it and the port
/// number after it, as `str::parse::<u16>` reads it.
pub open spec fn mysql_host_parts(host: Seq<char>) -> Result<(Seq<char>, u16), HostError> {
    if exists|i: int| 0 <= i < host.len() && host[i] == ':' {
        let sep = choose|i: int|
            0 <= i < host.len() && host[i] == ':' && forall|j: int| 0 <= j < i ==> host[j] != ':';
        match parse_u16_spec(host.subrange(sep + 1, host.len() as int)) {
            Some(port) => Ok((host.subrange(0, sep), port)),
            None => Err(HostError::InvalidPort),
        }
    } else {
        Err(HostError::MissingPort)
    }
}

/// Splits a MySQL `host:port` into host name and port (see `mysql_host_parts`).
pub fn split_mysql_host(host: &str) -> (res: Result<(String, u16), HostError>)
    ensures
        match res {
            Ok((name, port)) => mysql_host_parts(host@) == Ok::<(Seq<char>, u16), HostError>(
                (name@, port),
            ),
            Err(e) => mysql_host_parts(host@) == Err::<(Seq<char>, u16), HostError>(e),
        },
{
    match find_char(host, ':') {
        None => Err(HostError::MissingPort),
        Some(sep) => {
            let n = host.unicode_len();
            let ghost h = host@;
            proof {
                let chosen = choose|i: int|
                    0 <= i < h.len() && h[i] == ':' && forall|j: int| 0 <= j < i ==> h[j] != ':';
                assert(0 <= sep < h.len() && h[sep as int] == ':' && forall|j: int|
                    0 <= j < sep ==> h[j] != ':');
                assert(chosen == sep);
            }
            let name = host.substring_char(0, sep);
            let port_text = host.substring_char(sep + 1, n);
            match parse_u16(port_text) {
                Some(port) => Ok((String::from_str(name), port)),
                None => Err(HostError::InvalidPort),
            }
        },
    }
}

/// The URL of the redis server at `host`.
pub fn redis_url(host: &str) -> (res: String)
    ensures
        res@ == "redis://"@ + host@,
{
    String::from_str("redis://").concat(host)
}

/// The hashrate series: buckets of the configured hashrate interval, kept as long as
/// the redis hashrate time to live.
pub fn hashrate_series(config: &CoinConfig) -> (res: TimeSeriesInterval)
    requires
        config.stats.hashrate_interval_seconds > 0,
    ensures
        res == time_series(
            config.stats.hashrate_interval_seconds as u64,
            config.redis.hashrate_ttl_seconds as u64,
        ),
{
    get_time_series(
        config.stats.hashrate_interval_seconds as u64,
        config.redis.hashrate_ttl_seconds as u64,
    )
}

/// The mined block series: buckets of the configured block interval, kept for thirty
/// of them.
pub fn block_series(config: &CoinConfig) -> (res: TimeSeriesInterval)
    requires
        config.stats.mined_blocks_interval > 0,
    ensures
        res == time_series(
            config.stats.mined_blocks_interval as u64,
            (config.stats.mined_blocks_interval * 30) as u64,
        ),
{
    let interval = config.stats.mined_blocks_interval as u64;
    get_time_series(interval, interval * 30)
}

} // verus!

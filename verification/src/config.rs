//! The configuration of the platform and the service addresses it gives.
//! Thresholds are in hundredths: ice in mm, vibration in mm/s, wind in m/s.
use vstd::prelude::*;
use crate::text::{decimal_text, append_decimal};

verus! {

#[derive(Debug, Clone)]
pub struct AppConfig {
    pub server: ServerConfig,
    pub clickhouse: ClickHouseConfig,
    pub nats: NatsConfig,
    pub redis: RedisConfig,
    pub jwt: JwtConfig,
    pub system: SystemConfig,
    pub video: VideoConfig,
    pub node: NodeConfig,
}

#[derive(Debug, Clone)]
pub struct ServerConfig {
    pub host: String,
    pub port: u16,
}

#[derive(Debug, Clone)]
pub struct ClickHouseConfig {
    pub host: String,
    pub port: u16,
    pub user: String,
    pub password: String,
    pub database: String,
}

#[derive(Debug, Clone)]
pub struct NatsConfig {
    pub host: String,
    pub port: u16,
    pub user: Option<String>,
    pub password: Option<String>,
}

#[derive(Debug, Clone)]
pub struct RedisConfig {
    pub host: String,
    pub port: u16,
    pub password: Option<String>,
}

#[derive(Debug, Clone)]
pub struct JwtConfig {
    pub secret: String,
    pub expire_hours: i64,
}

/// The alert thresholds, in hundredths of their units.
#[derive(Debug, Clone)]
pub struct SystemConfig {
    pub ice_alert_threshold_mm: i64,
    pub vibration_alert_threshold_mms: i64,
    pub wind_speed_threshold_ms: i64,
}

#[derive(Debug, Clone)]
pub struct VideoConfig {
    pub server_url: String,
    pub api_key: String,
}

#[derive(Debug, Clone)]
pub struct NodeConfig {
    pub node_id: String,
    pub node_location: String,
}

/// `scheme://host:port`.
pub open spec fn host_url(scheme: Seq<char>, host: Seq<char>, port: u16) -> Seq<char> {
    scheme + "://"@ + host + ":"@ + decimal_text(port as nat)
}

impl AppConfig {
    /// The HTTP address of the ClickHouse server.
    pub fn clickhouse_url(&self) -> (r: String)
        ensures
            r@ == host_url("http"@, self.clickhouse.host@, self.clickhouse.port),
    {
        let mut s = String::from_str("http://");
        s.append(self.clickhouse.host.as_str());
        s.append(":");
        append_decimal(&mut s, self.clickhouse.port as u64);
        proof { reveal_strlit("http://"); reveal_strlit("http"); reveal_strlit("://"); }
        assert(s@ =~= host_url("http"@, self.clickhouse.host@, self.clickhouse.port));
        s
    }

    /// The address of the NATS server.
    pub fn nats_url(&self) -> (r: String)
        ensures
            r@ == host_url("nats"@, self.nats.host@, self.nats.port),
    {
        let mut s = String::from_str("nats://");
        s.append(self.nats.host.as_str());
        s.append(":");
        append_decimal(&mut s, self.nats.port as u64);
        proof { reveal_strlit("nats://"); reveal_strlit("nats"); reveal_strlit("://"); }
        assert(s@ =~= host_url("nats"@, self.nats.host@, self.nats.port));
        s
    }

    /// The address of the Redis server, with the password when there is one
    /// (`redis://:password@host:port`).
    pub fn redis_url(&self) -> (r: String)
        ensures
            r@ == match self.redis.password {
                Some(p) => "redis://:"@ + p@ + "@"@ + self.redis.host@ + ":"@ + decimal_text(self.redis.port as nat),
                None => host_url("redis"@, self.redis.host@, self.redis.port),
            },
    {
        match &self.redis.password {
            Some(password) => {
                let mut s = String::from_str("redis://:");
                s.append(password.as_str());
                s.append("@");
                s.append(self.redis.host.as_str());
                s.append(":");
                append_decimal(&mut s, self.redis.port as u64);
                s
            }
            None => {
                let mut s = String::from_str("redis://");
                s.append(self.redis.host.as_str());
                s.append(":");
                append_decimal(&mut s, self.redis.port as u64);
                proof { reveal_strlit("redis://"); reveal_strlit("redis"); reveal_strlit("://"); }
                assert(s@ =~= host_url("redis"@, self.redis.host@, self.redis.port));
                s
            }
        }
    }
}

} // verus!

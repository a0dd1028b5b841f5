//! The requests the HTTP interface accepts and the decisions it takes before
//! calling the services: reading the bearer token, reading a priority, and
//! reporting health.
use vstd::prelude::*;
use crate::error::AppError;
use crate::models::video::VerificationPriority;

verus! {

#[derive(Debug, Clone)]
pub struct ChangePasswordRequest {
    pub old_password: String,
    pub new_password: String,
}

#[derive(Debug, Clone)]
pub struct UpdateTaskStatusRequest {
    pub status: String,
    pub notes: Option<String>,
}

#[derive(Debug, Clone)]
pub struct UpdateSensorStatusRequest {
    pub status: String,
}

#[derive(Debug, Clone)]
pub struct EvaluateStrategyRequest {
    pub alert_id: u128,
}

#[derive(Debug, Clone)]
pub struct ExecuteShutdownRequest {
    pub notes: Option<String>,
}

#[derive(Debug, Clone)]
pub struct ManualVerifyRequest {
    pub ice_confirmed: bool,
    pub notes: String,
}

/// The state of the services the platform depends on.
#[derive(Debug, Clone)]
pub struct ServiceStatus {
    pub database: String,
    pub nats: String,
    pub redis: String,
    pub response_time_ms: u64,
}

/// The answer to a health check; the time is in Unix seconds.
#[derive(Debug, Clone)]
pub struct HealthStatus {
    pub status: String,
    pub version: String,
    pub uptime_seconds: u64,
    pub timestamp: i64,
    pub services: ServiceStatus,
}

/// Reports health: the platform answers, so it is healthy; the database is
/// healthy when it could be queried; NATS and Redis are reported healthy.
pub fn health_status(database_reachable: bool, version: &str, uptime_seconds: u64, now: i64, response_time_ms: u64)
    -> (r: HealthStatus)
    ensures
        r.status@ == "healthy"@,
        r.version@ == version@,
        r.uptime_seconds == uptime_seconds,
        r.timestamp == now,
        r.services.database@ == if database_reachable { "healthy"@ } else { "unhealthy"@ },
        r.services.nats@ == "healthy"@,
        r.services.redis@ == "healthy"@,
        r.services.response_time_ms == response_time_ms,
{
    HealthStatus {
        status: String::from_str("healthy"),
        version: String::from_str(version),
        uptime_seconds,
        timestamp: now,
        services: ServiceStatus {
            database: if database_reachable { String::from_str("healthy") } else { String::from_str("unhealthy") },
            nats: String::from_str("healthy"),
            redis: String::from_str("healthy"),
            response_time_ms,
        },
    }
}

/// Reads the token out of an `Authorization` header: missing header and a
/// header without the `Bearer ` scheme are refused as unauthorized.
pub fn bearer_token(header: Option<&str>) -> (r: Result<String, AppError>)
    ensures
        header.is_none() ==> (r matches Err(AppError::Unauthorized(m)) && m@ == "缺少认证令牌"@),
        header matches Some(h) ==> if h@.len() >= 7 && h@.subrange(0, 7) == "Bearer "@ {
            r matches Ok(t) && t@ == h@.subrange(7, h@.len() as int)
        } else {
            r matches Err(AppError::Unauthorized(m)) && m@ == "认证令牌格式错误"@
        },
{
    proof { reveal_strlit("Bearer "); }
    match header {
        None => Err(AppError::Unauthorized(String::from_str("缺少认证令牌"))),
        Some(h) => {
            let n = h.unicode_len();
            if n >= 7 {
                let head = h.substring_char(0, 7);
                if crate::text::same_text(head, "Bearer ") {
                    let rest = h.substring_char(7, n);
                    return Ok(String::from_str(rest));
                }
            }
            Err(AppError::Unauthorized(String::from_str("认证令牌格式错误")))
        }
    }
}

/// Reads the priority of a verification request; a name that is not a
/// priority is a bad request.
pub fn request_priority(text: &str) -> (r: Result<VerificationPriority, AppError>)
    ensures
        match VerificationPriority::from_text_spec(text@) {
            Some(p) => r == Ok::<VerificationPriority, AppError>(p),
            None => r matches Err(AppError::BadRequest(m)) && m@ == "Invalid priority: "@ + "Invalid priority: "@ + text@,
        },
{
    match VerificationPriority::from_text(text) {
        Ok(p) => Ok(p),
        Err(e) => {
            let mut m = String::from_str("Invalid priority: ");
            m.append(e.as_str());
            assert(m@ =~= "Invalid priority: "@ + "Invalid priority: "@ + text@);
            Err(AppError::BadRequest(m))
        }
    }
}

} // verus!

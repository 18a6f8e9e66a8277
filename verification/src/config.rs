use vstd::prelude::*;

verus! {

/// The settings without which the process does not start.
#[derive(Clone, Debug)]
pub struct Config {
    /// Where the relational store is reached.
    pub db_conn: String,
    /// Where the fast store is reached.
    pub redis_conn: String,
    /// The secret under which passwords are hashed.
    pub secret: String,
    /// The secret with which access tokens are signed.
    pub jwt_secret: String,
}

/// A setting that is not there.
#[derive(Clone, Copy, Debug, PartialEq, Eq, Structural)]
pub enum MissingSetting {
    DbConn,
    RedisConn,
    Secret,
    JwtSecret,
}

impl Config {
    /// Puts the configuration together, once, at startup. It is there exactly when all
    /// four settings are; where some are not, the first of them is named.
    pub fn from_settings(
        db_conn: Option<String>,
        redis_conn: Option<String>,
        secret: Option<String>,
        jwt_secret: Option<String>,
    ) -> (config: Result<Config, MissingSetting>)
        ensures
            config is Ok <==> db_conn is Some && redis_conn is Some && secret is Some
                && jwt_secret is Some,
            config matches Ok(c) ==> Some(c.db_conn) == db_conn && Some(c.redis_conn)
                == redis_conn && Some(c.secret) == secret && Some(c.jwt_secret) == jwt_secret,
            config matches Err(missing) ==> missing == (if db_conn is None {
                MissingSetting::DbConn
            } else if redis_conn is None {
                MissingSetting::RedisConn
            } else if secret is None {
                MissingSetting::Secret
            } else {
                MissingSetting::JwtSecret
            }),
    {
        let db_conn = match db_conn {
            Some(text) => text,
            None => {
                return Err(MissingSetting::DbConn);
            },
        };
        let redis_conn = match redis_conn {
            Some(text) => text,
            None => {
                return Err(MissingSetting::RedisConn);
            },
        };
        let secret = match secret {
            Some(text) => text,
            None => {
                return Err(MissingSetting::Secret);
            },
        };
        let jwt_secret = match jwt_secret {
            Some(text) => text,
            None => {
                return Err(MissingSetting::JwtSecret);
            },
        };
        Ok(Config { db_conn, redis_conn, secret, jwt_secret })
    }
}

} // verus!

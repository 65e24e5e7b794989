//! JWT claim sets and their JSON form.

use vstd::prelude::*;

use crate::text::{int_decimal, json_string, push_i64_decimal, push_json_string, push_u64_decimal};
use vstd::string::StringExecFns;

verus! {

/// Claims of an access token.
#[derive(Debug, Clone)]
pub struct AccessClaims {
    /// User id.
    pub sub: String,
    /// User name.
    pub name: String,
    /// Role name.
    pub role: String,
    /// Access level bitmap.
    pub acl: u32,
    pub iss: String,
    pub aud: String,
    /// Issued at (epoch seconds).
    pub iat: i64,
    /// Not before (epoch seconds).
    pub nbf: i64,
    /// Expires at (epoch seconds).
    pub exp: i64,
    /// Token id.
    pub jti: String,
}

/// Claims of a refresh token.
#[derive(Debug, Clone)]
pub struct RefreshClaims {
    pub sub: String,
    pub iss: String,
    pub aud: String,
    pub iat: i64,
    pub nbf: i64,
    pub exp: i64,
    pub jti: String,
    /// Always `"refresh"` for tokens this library issues.
    pub typ: String,
    pub name: String,
    pub role: String,
    pub acl: u32,
}

/// The compact JSON object of access claims, fields in declaration order.
pub open spec fn access_claims_json(c: AccessClaims) -> Seq<char> {
    "{\"sub\":"@ + json_string(c.sub@) + ",\"name\":"@ + json_string(c.name@) + ",\"role\":"@
        + json_string(c.role@) + ",\"acl\":"@ + int_decimal(c.acl as int) + ",\"iss\":"@
        + json_string(c.iss@) + ",\"aud\":"@ + json_string(c.aud@) + ",\"iat\":"@ + int_decimal(
        c.iat as int,
    ) + ",\"nbf\":"@ + int_decimal(c.nbf as int) + ",\"exp\":"@ + int_decimal(c.exp as int)
        + ",\"jti\":"@ + json_string(c.jti@) + "}"@
}

/// The compact JSON object of refresh claims, fields in declaration order.
pub open spec fn refresh_claims_json(c: RefreshClaims) -> Seq<char> {
    "{\"sub\":"@ + json_string(c.sub@) + ",\"iss\":"@ + json_string(c.iss@) + ",\"aud\":"@
        + json_string(c.aud@) + ",\"iat\":"@ + int_decimal(c.iat as int) + ",\"nbf\":"@
        + int_decimal(c.nbf as int) + ",\"exp\":"@ + int_decimal(c.exp as int) + ",\"jti\":"@
        + json_string(c.jti@) + ",\"typ\":"@ + json_string(c.typ@) + ",\"name\":"@ + json_string(
        c.name@,
    ) + ",\"role\":"@ + json_string(c.role@) + ",\"acl\":"@ + int_decimal(c.acl as int) + "}"@
}

impl AccessClaims {
    /// The claims as a compact JSON object.
    pub fn to_json(&self) -> (res: String)
        ensures
            res@ == access_claims_json(*self),
    {
        let mut out = String::new();
        out.append("{\"sub\":");
        push_json_string(&mut out, self.sub.as_str());
        out.append(",\"name\":");
        push_json_string(&mut out, self.name.as_str());
        out.append(",\"role\":");
        push_json_string(&mut out, self.role.as_str());
        out.append(",\"acl\":");
        push_u64_decimal(&mut out, self.acl as u64);
        out.append(",\"iss\":");
        push_json_string(&mut out, self.iss.as_str());
        out.append(",\"aud\":");
        push_json_string(&mut out, self.aud.as_str());
        out.append(",\"iat\":");
        push_i64_decimal(&mut out, self.iat);
        out.append(",\"nbf\":");
        push_i64_decimal(&mut out, self.nbf);
        out.append(",\"exp\":");
        push_i64_decimal(&mut out, self.exp);
        out.append(",\"jti\":");
        push_json_string(&mut out, self.jti.as_str());
        out.append("}");
        assert(out@ =~= access_claims_json(*self));
        out
    }
}

impl RefreshClaims {
    /// The claims as a compact JSON object.
    pub fn to_json(&self) -> (res: String)
        ensures
            res@ == refresh_claims_json(*self),
    {
        let mut out = String::new();
        out.append("{\"sub\":");
        push_json_string(&mut out, self.sub.as_str());
        out.append(",\"iss\":");
        push_json_string(&mut out, self.iss.as_str());
        out.append(",\"aud\":");
        push_json_string(&mut out, self.aud.as_str());
        out.append(",\"iat\":");
        push_i64_decimal(&mut out, self.iat);
        out.append(",\"nbf\":");
        push_i64_decimal(&mut out, self.nbf);
        out.append(",\"exp\":");
        push_i64_decimal(&mut out, self.exp);
        out.append(",\"jti\":");
        push_json_string(&mut out, self.jti.as_str());
        out.append(",\"typ\":");
        push_json_string(&mut out, self.typ.as_str());
        out.append(",\"name\":");
        push_json_string(&mut out, self.name.as_str());
        out.append(",\"role\":");
        push_json_string(&mut out, self.role.as_str());
        out.append(",\"acl\":");
        push_u64_decimal(&mut out, self.acl as u64);
        out.append("}");
        assert(out@ =~= refresh_claims_json(*self));
        out
    }
}

} // verus!

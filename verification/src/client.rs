//! The three client flavors: user authorization (bearer token, optional
//! namespace override), team authorization (bearer token, optional
//! member/admin selector), and no authorization. Each shapes the
//! authorization context of every request it builds.

use vstd::prelude::*;

use crate::request::build_ok;
use crate::request::build_request;
use crate::request::opt_bytes_view;
use crate::request::BuiltRequest;
use crate::types::Endpoint;
use crate::types::Error;
use crate::types::ParamsType;
use crate::types::Style;
use crate::types::TeamSelect;

verus! {

/// A client using user authorization.
pub struct UserAuthDefaultClient {
    token: String,
    namespace_id: Option<String>,
}

impl UserAuthDefaultClient {
    /// The bearer token this client authorizes with.
    pub closed spec fn token_spec(&self) -> Seq<char> {
        self.token@
    }

    /// The namespace id overriding the path root, if one is set.
    pub closed spec fn namespace_spec(&self) -> Option<Seq<char>> {
        match self.namespace_id {
            Some(n) => Some(n@),
            None => None,
        }
    }

    /// Create a new client using the given OAuth2 token.
    pub fn new(token: String) -> (c: Self)
        ensures
            c.token_spec() == token@,
            c.namespace_spec() is None,
    {
        UserAuthDefaultClient { token, namespace_id: None }
    }

    /// Set a namespace id as the path root for future requests.
    pub fn namespace_id(&mut self, namespace_id: Option<String>)
        ensures
            final(self).token_spec() == old(self).token_spec(),
            final(self).namespace_spec() == match namespace_id {
                Some(n) => Some(n@),
                None => None::<Seq<char>>,
            },
    {
        self.namespace_id = namespace_id;
    }

    /// Build one outbound request under this client's authorization: a
    /// bearer token and, when set, a path-root namespace selector.
    pub fn build_request(
        &self,
        endpoint: Endpoint,
        style: Style,
        function: &str,
        params: String,
        params_type: ParamsType,
        body: Option<&[u8]>,
        range_start: Option<u64>,
        range_end: Option<u64>,
    ) -> (r: Result<BuiltRequest, Error>)
        ensures
            r is Err <==> (style is Download && body is Some),
            r matches Err(e) ==> e is BodyNotAllowed,
            r matches Ok(req) ==> build_ok(
                req,
                endpoint,
                style,
                function@,
                params@,
                params_type,
                opt_bytes_view(body),
                range_start,
                range_end,
                Some(self.token_spec()),
                None,
                self.namespace_spec(),
            ),
    {
        let ns: Option<&str> = match &self.namespace_id {
            Some(n) => Some(n.as_str()),
            None => None,
        };
        build_request(
            endpoint,
            style,
            function,
            params,
            params_type,
            body,
            range_start,
            range_end,
            Some(self.token.as_str()),
            None,
            ns,
        )
    }
}

/// A client using team authorization.
pub struct TeamAuthDefaultClient {
    token: String,
    team_select: Option<TeamSelect>,
}

impl TeamAuthDefaultClient {
    /// The bearer token this client authorizes with.
    pub closed spec fn token_spec(&self) -> Seq<char> {
        self.token@
    }

    /// The member or admin context selected, if any.
    pub closed spec fn team_spec(&self) -> Option<TeamSelect> {
        self.team_select
    }

    /// Create a new client using the given OAuth2 token, with no
    /// user/admin context selected.
    pub fn new(token: String) -> (c: Self)
        ensures
            c.token_spec() == token@,
            c.team_spec() is None,
    {
        TeamAuthDefaultClient { token, team_select: None }
    }

    /// Select a user or admin context to operate in.
    pub fn select(&mut self, team_select: Option<TeamSelect>)
        ensures
            final(self).token_spec() == old(self).token_spec(),
            final(self).team_spec() == team_select,
    {
        self.team_select = team_select;
    }

    /// Build one outbound request under this client's authorization: a
    /// bearer token and, when selected, a member or admin selector header.
    pub fn build_request(
        &self,
        endpoint: Endpoint,
        style: Style,
        function: &str,
        params: String,
        params_type: ParamsType,
        body: Option<&[u8]>,
        range_start: Option<u64>,
        range_end: Option<u64>,
    ) -> (r: Result<BuiltRequest, Error>)
        ensures
            r is Err <==> (style is Download && body is Some),
            r matches Err(e) ==> e is BodyNotAllowed,
            r matches Ok(req) ==> build_ok(
                req,
                endpoint,
                style,
                function@,
                params@,
                params_type,
                opt_bytes_view(body),
                range_start,
                range_end,
                Some(self.token_spec()),
                self.team_spec(),
                None,
            ),
    {
        build_request(
            endpoint,
            style,
            function,
            params,
            params_type,
            body,
            range_start,
            range_end,
            Some(self.token.as_str()),
            self.team_select.as_ref(),
            None,
        )
    }
}

/// A client for unauthenticated API calls.
#[derive(Debug)]
pub struct NoauthDefaultClient {}

impl Default for NoauthDefaultClient {
    /// Create a new unauthenticated client.
    fn default() -> (c: Self)
        ensures
            c == (NoauthDefaultClient {  }),
    {
        NoauthDefaultClient {  }
    }
}

impl NoauthDefaultClient {
    /// Build one outbound request with no authorization attached.
    pub fn build_request(
        &self,
        endpoint: Endpoint,
        style: Style,
        function: &str,
        params: String,
        params_type: ParamsType,
        body: Option<&[u8]>,
        range_start: Option<u64>,
        range_end: Option<u64>,
    ) -> (r: Result<BuiltRequest, Error>)
        ensures
            r is Err <==> (style is Download && body is Some),
            r matches Err(e) ==> e is BodyNotAllowed,
            r matches Ok(req) ==> build_ok(
                req,
                endpoint,
                style,
                function@,
                params@,
                params_type,
                opt_bytes_view(body),
                range_start,
                range_end,
                None,
                None,
                None,
            ),
    {
        build_request(
            endpoint,
            style,
            function,
            params,
            params_type,
            body,
            range_start,
            range_end,
            None,
            None,
            None,
        )
    }
}

} // verus!

use vstd::prelude::*;

use crate::errors::{auth_token, unauthorized, Error};

verus! {

/// The authenticated identity produced by a successful validation.
#[derive(Debug, Clone)]
pub struct User {
    pub name: String,
}

/// The scheme keyword a header must carry.
pub open spec fn bearer_scheme() -> Seq<char> {
    "Bearer"@
}

/// The token that the validator accepts.
pub open spec fn shared_secret() -> Seq<char> {
    "hello world"@
}

/// The display name of the principal the accepted token stands for.
pub open spec fn principal_name() -> Seq<char> {
    "belak"@
}

pub open spec fn invalid_scheme_reason() -> Seq<char> {
    "invalid scheme"@
}

pub open spec fn missing_token_reason() -> Seq<char> {
    "missing token"@
}

pub open spec fn multiple_tokens_reason() -> Seq<char> {
    "multiple tokens specified"@
}

pub open spec fn no_token_reason() -> Seq<char> {
    "no token specified"@
}

/// Splits `s` at its first space into the part before and the part after,
/// or `None` when `s` holds no space.
pub open spec fn split_first_space(s: Seq<char>) -> Option<(Seq<char>, Seq<char>)>
    decreases s.len(),
{
    if s.len() == 0 {
        None
    } else if s[0] == ' ' {
        Some((Seq::<char>::empty(), s.drop_first()))
    } else {
        match split_first_space(s.drop_first()) {
            None => None,
            Some((a, b)) => Some((seq![s[0]] + a, b)),
        }
    }
}

/// What an authorization header alone yields: the token, or the reason it
/// was refused.
pub open spec fn header_candidate(h: Seq<char>) -> Result<Seq<char>, Seq<char>> {
    match split_first_space(h) {
        None => Err(missing_token_reason()),
        Some((scheme, rest)) => if scheme != bearer_scheme() {
            Err(invalid_scheme_reason())
        } else if rest.len() == 0 {
            Err(missing_token_reason())
        } else {
            Ok(rest)
        },
    }
}

/// The candidate token resolved from an optional header and an optional
/// query token, or the reason extraction failed.
pub open spec fn extraction(h: Option<Seq<char>>, q: Option<Seq<char>>) -> Result<
    Seq<char>,
    Seq<char>,
> {
    match (h, q) {
        (Some(h), None) => header_candidate(h),
        (None, Some(q)) => Ok(q),
        (Some(_), Some(_)) => Err(multiple_tokens_reason()),
        (None, None) => Err(no_token_reason()),
    }
}

pub open spec fn opt_view(o: Option<&str>) -> Option<Seq<char>> {
    match o {
        Some(s) => Some(s@),
        None => None,
    }
}

/// `r` is what extraction owes on the given sources.
pub open spec fn extracted_as(h: Option<Seq<char>>, q: Option<Seq<char>>, r: Result<String, Error>) -> bool {
    match extraction(h, q) {
        Ok(t) => r matches Ok(s) && s@ == t,
        Err(reason) => r matches Err(Error::AuthTokenError(m)) && m@ == reason,
    }
}

/// `r` is what validation owes on the candidate `t`.
pub open spec fn validated_as(t: Seq<char>, r: Result<User, Error>) -> bool {
    if t == shared_secret() {
        r matches Ok(u) && u.name@ == principal_name()
    } else {
        r matches Err(e) && e is Unauthorized
    }
}

/// `r` is what authentication owes on the given sources: extraction, then
/// validation of the candidate.
pub open spec fn authenticated_as(h: Option<Seq<char>>, q: Option<Seq<char>>, r: Result<User, Error>) -> bool {
    match extraction(h, q) {
        Ok(t) => validated_as(t, r),
        Err(reason) => r matches Err(Error::AuthTokenError(m)) && m@ == reason,
    }
}

proof fn lemma_split_first_space(s: Seq<char>, a: Seq<char>, b: Seq<char>)
    requires
        s == a + seq![' '] + b,
        !a.contains(' '),
    ensures
        split_first_space(s) == Some((a, b)),
    decreases a.len(),
{
    if a.len() == 0 {
        assert(s[0] == ' ');
        assert(s.drop_first() =~= b);
    } else {
        assert(s[0] == a[0]);
        assert(a[0] != ' ') by {
            assert(a.contains(a[0]) ==> a[0] != ' ');
        };
        let a2 = a.drop_first();
        assert(s.drop_first() =~= a2 + seq![' '] + b);
        assert(!a2.contains(' ')) by {
            if a2.contains(' ') {
                let i = choose|i: int| 0 <= i < a2.len() && a2[i] == ' ';
                assert(a[i + 1] == ' ');
            }
        };
        lemma_split_first_space(s.drop_first(), a2, b);
        assert(seq![a[0]] + a2 =~= a);
    }
}

proof fn lemma_no_space(s: Seq<char>)
    requires
        !s.contains(' '),
    ensures
        split_first_space(s) is None,
    decreases s.len(),
{
    if s.len() > 0 {
        assert(s[0] != ' ') by {
            assert(s.contains(s[0]));
        };
        let t = s.drop_first();
        assert(!t.contains(' ')) by {
            if t.contains(' ') {
                let i = choose|i: int| 0 <= i < t.len() && t[i] == ' ';
                assert(s[i + 1] == ' ');
            }
        };
        lemma_no_space(t);
    }
}

/// Relies on str::split_once: splits at the first occurrence of the delimiter,
/// and returns `None` when it does not occur.
#[verifier::external_body]
fn split_once_space(s: &str) -> (r: Option<(&str, &str)>)
    ensures
        match r {
            None => !s@.contains(' '),
            Some((a, b)) => s@ == a@ + seq![' '] + b@ && !a@.contains(' '),
        },
{
    s.split_once(' ')
}

fn str_eq(a: &str, b: &str) -> (r: bool)
    ensures
        r == (a@ == b@),
{
    a.to_owned() == b.to_owned()
}

/// Resolves the authorization header alone into a token.
fn token_from_header(header: &str) -> (r: Result<String, Error>)
    ensures
        extracted_as(Some(header@), None, r),
{
    match split_once_space(header) {
        None => {
            proof {
                lemma_no_space(header@);
            }
            Err(auth_token("missing token"))
        },
        Some((scheme, token)) => {
            proof {
                lemma_split_first_space(header@, scheme@, token@);
            }
            if !str_eq(scheme, "Bearer") {
                Err(auth_token("invalid scheme"))
            } else if token.is_empty() {
                Err(auth_token("missing token"))
            } else {
                Ok(token.to_owned())
            }
        },
    }
}

/// Resolves an optional authorization header and an optional query token
/// into the single candidate token, or the reason none can be chosen.
pub fn extract_token(header: Option<&str>, query: Option<&str>) -> (r: Result<String, Error>)
    ensures
        extracted_as(opt_view(header), opt_view(query), r),
{
    match (header, query) {
        (Some(h), None) => token_from_header(h),
        (None, Some(q)) => Ok(q.to_owned()),
        (Some(_), Some(_)) => Err(auth_token("multiple tokens specified")),
        (None, None) => Err(auth_token("no token specified")),
    }
}

/// Checks a candidate token against the shared secret, yielding the
/// principal it stands for; every other token is refused alike.
pub fn validate(token: &str) -> (r: Result<User, Error>)
    ensures
        validated_as(token@, r),
{
    if str_eq(token, "hello world") {
        Ok(User { name: "belak".to_owned() })
    } else {
        Err(unauthorized())
    }
}

/// A strategy that turns a candidate token into a principal, refusing every
/// token it does not accept alike, so that nothing of why leaks to a caller.
pub trait TokenValidator {
    /// Whether the strategy accepts the candidate `t`.
    spec fn accepts(&self, t: Seq<char>) -> bool;

    /// The display name of the principal an accepted `t` stands for.
    spec fn principal_of(&self, t: Seq<char>) -> Seq<char>;

    fn check(&self, token: &str) -> (r: Result<User, Error>)
        ensures
            match r {
                Ok(u) => self.accepts(token@) && u.name@ == self.principal_of(token@),
                Err(e) => !self.accepts(token@) && e is Unauthorized,
            },
    ;
}

/// The validator that accepts the one fixed shared secret.
pub struct SharedSecret;

impl TokenValidator for SharedSecret {
    open spec fn accepts(&self, t: Seq<char>) -> bool {
        t == shared_secret()
    }

    open spec fn principal_of(&self, t: Seq<char>) -> Seq<char> {
        principal_name()
    }

    fn check(&self, token: &str) -> (r: Result<User, Error>) {
        validate(token)
    }
}

/// Extracts the candidate token from the request's sources and lets
/// `validator` decide on it.
pub fn authenticate_with<V: TokenValidator>(
    validator: &V,
    header: Option<&str>,
    query: Option<&str>,
) -> (r: Result<User, Error>)
    ensures
        match extraction(opt_view(header), opt_view(query)) {
            Ok(t) => match r {
                Ok(u) => validator.accepts(t) && u.name@ == validator.principal_of(t),
                Err(e) => !validator.accepts(t) && e is Unauthorized,
            },
            Err(reason) => r matches Err(Error::AuthTokenError(m)) && m@ == reason,
        },
{
    match extract_token(header, query) {
        Ok(token) => validator.check(token.as_str()),
        Err(e) => Err(e),
    }
}

/// Extracts the candidate token from the request's sources and validates it
/// against the shared secret.
pub fn authenticate(header: Option<&str>, query: Option<&str>) -> (r: Result<User, Error>)
    ensures
        authenticated_as(opt_view(header), opt_view(query), r),
{
    authenticate_with(&SharedSecret, header, query)
}

/// A well-formed `Bearer <token>` header with a non-empty token, and no query
/// token, yields that token as the candidate.
pub proof fn lemma_bearer_header_yields_token(token: Seq<char>)
    requires
        token.len() > 0,
    ensures
        extraction(Some(bearer_scheme() + seq![' '] + token), None) == Ok::<Seq<char>, Seq<char>>(
            token,
        ),
{
    reveal_strlit("Bearer");
    assert(!bearer_scheme().contains(' ')) by {
        if bearer_scheme().contains(' ') {
            let i = choose|i: int| 0 <= i < bearer_scheme().len() && bearer_scheme()[i] == ' ';
            assert(bearer_scheme()[i] != ' ');
        }
    };
    lemma_split_first_space(bearer_scheme() + seq![' '] + token, bearer_scheme(), token);
}

/// A request carrying both a header and a query token is refused as
/// ambiguous, whether or not the two agree.
pub proof fn lemma_both_sources_refused(header: Seq<char>, query: Seq<char>)
    ensures
        extraction(Some(header), Some(query)) == Err::<Seq<char>, Seq<char>>(
            multiple_tokens_reason(),
        ),
{
}

/// A request carrying neither a header nor a query token is refused because
/// no token was specified.
pub proof fn lemma_no_source_refused()
    ensures
        extraction(None, None) == Err::<Seq<char>, Seq<char>>(no_token_reason()),
{
}

/// Validation is deterministic: any two results it may give for the same
/// candidate token have the same outcome.
pub proof fn lemma_validation_deterministic(
    token: Seq<char>,
    r1: Result<User, Error>,
    r2: Result<User, Error>,
)
    requires
        validated_as(token, r1),
        validated_as(token, r2),
    ensures
        r1 is Ok <==> r2 is Ok,
        r1 matches Ok(u1) ==> (r2 matches Ok(u2) && u1.name@ == u2.name@),
        r1 matches Err(e1) ==> (r2 matches Err(e2) && e1 is Unauthorized && e2 is Unauthorized),
{
}

} // verus!

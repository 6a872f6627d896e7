//! Path-based redirect rules.
//!
//! A [`Redirect`] rule is configured once at route-registration time and is
//! immutable thereafter; evaluating it on the path of a matched request
//! yields a response descriptor: a status code and a Location value. The
//! host router owns path-pattern matching and guarantees that the request
//! path ends with the rule's source path before evaluation.

use vstd::prelude::*;
use vstd::string::*;

verus! {

/// Determines how redirects are routed.
pub enum Target {
    /// An absolute path or full URL used as-is when redirecting.
    Absolute(String),
    /// A path relative to the matched prefix of the request path.
    Relative(String),
}

/// The mathematical shape of a [`Target`]: the same two variants over
/// character sequences.
pub enum TargetView {
    Absolute(Seq<char>),
    Relative(Seq<char>),
}

impl View for Target {
    type V = TargetView;

    open spec fn view(&self) -> TargetView {
        match self {
            Target::Absolute(t) => TargetView::Absolute(t@),
            Target::Relative(t) => TargetView::Relative(t@),
        }
    }
}

/// The mathematical shape of a [`Redirect`] rule: its source path, its
/// target and its status code.
pub struct RedirectView {
    pub source: Seq<char>,
    pub target: TargetView,
    pub status: u16,
}

/// The request path ends with the registered source path: the guarantee the
/// host router gives once it has matched a request against a rule.
pub open spec fn ends_with(path: Seq<char>, suffix: Seq<char>) -> bool {
    &&& suffix.len() <= path.len()
    &&& path.subrange(path.len() - suffix.len(), path.len() as int) == suffix
}

/// The Location value a rule yields for a matched request path: an absolute
/// target verbatim; a relative target appended to the request path once the
/// trailing source path is stripped, so that the mount prefix is preserved.
pub open spec fn location_of(rule: RedirectView, path: Seq<char>) -> Seq<char>
    recommends
        ends_with(path, rule.source),
{
    match rule.target {
        TargetView::Absolute(t) => t,
        TargetView::Relative(t) => path.subrange(0, path.len() - rule.source.len()) + t,
    }
}

/// Decides whether a request path ends with a rule's source path: the test
/// a caller without the host router's matching guarantee makes before
/// evaluating a rule.
pub fn path_matches(request_path: &str, source: &str) -> (r: bool)
    ensures
        r == ends_with(request_path@, source@),
{
    let n = request_path.unicode_len();
    let k = source.unicode_len();
    if k > n {
        return false;
    }
    let mut i: usize = 0;
    while i < k
        invariant
            0 <= i <= k,
            k <= n,
            n == request_path@.len(),
            k == source@.len(),
            forall|j: int| 0 <= j < i ==> request_path@[n - k + j] == #[trigger] source@[j],
        decreases k - i,
    {
        if request_path.get_char(n - k + i) != source.get_char(i) {
            proof {
                let tail = request_path@.subrange(n - k, n as int);
                assert(tail[i as int] == request_path@[n - k + i]);
            }
            return false;
        }
        i = i + 1;
    }
    proof {
        assert(request_path@.subrange(n - k, n as int) =~= source@);
    }
    true
}

/// A redirect response descriptor: what the host turns into a wire-format
/// response with the given status, a Location header holding the given
/// value, and an empty body.
pub struct RedirectResponse {
    pub status_code: u16,
    pub location: String,
}

/// A rule for redirecting one path to another path or URL.
///
/// Redirects are either relative ([`to_relative`](Redirect::to_relative))
/// or absolute ([`to_absolute`](Redirect::to_absolute)). By default the
/// "308 Permanent Redirect" status is used when responding.
pub struct Redirect {
    from: String,
    to: Target,
    status_code: u16,
}

impl View for Redirect {
    type V = RedirectView;

    closed spec fn view(&self) -> RedirectView {
        RedirectView { source: self.from@, target: self.to@, status: self.status_code }
    }
}

impl Redirect {
    /// A rule is well formed when its status code is a valid HTTP status
    /// integer. The builder methods establish and preserve this; semantic
    /// fitness of the code for redirection is the caller's responsibility.
    pub open spec fn wf(&self) -> bool {
        1 <= self@.status <= 999
    }

    /// Create a new `Redirect` rule, first providing the path that should be
    /// redirected.
    ///
    /// The default "to" location is the root path (`/`) and the default
    /// status is "308 Permanent Redirect". It is expected that either
    /// [`to_relative`](Redirect::to_relative) or
    /// [`to_absolute`](Redirect::to_absolute) is called afterwards.
    pub fn from(from: &str) -> (r: Self)
        ensures
            r@.source == from@,
            r@.target == TargetView::Absolute("/"@),
            r@.status == 308,
            r.wf(),
    {
        Redirect {
            from: from.to_owned(),
            to: Target::Absolute("/".to_owned()),
            status_code: 308,
        }
    }

    /// Redirect to an absolute address or path.
    ///
    /// Whatever argument is provided shall be used as-is when setting the
    /// redirect location.
    pub fn to_absolute(self, to: &str) -> (r: Self)
        ensures
            r@.source == self@.source,
            r@.target == TargetView::Absolute(to@),
            r@.status == self@.status,
    {
        Redirect { from: self.from, to: Target::Absolute(to.to_owned()), status_code: self.status_code }
    }

    /// Redirect to a path relative to the matched prefix of the request.
    pub fn to_relative(self, to: &str) -> (r: Self)
        ensures
            r@.source == self@.source,
            r@.target == TargetView::Relative(to@),
            r@.status == self@.status,
    {
        Redirect { from: self.from, to: Target::Relative(to.to_owned()), status_code: self.status_code }
    }

    /// Use the "307 Temporary Redirect" status when responding.
    pub fn temporary(self) -> (r: Self)
        ensures
            r@.source == self@.source,
            r@.target == self@.target,
            r@.status == 307,
            r.wf(),
    {
        self.using_status_code(307)
    }

    /// Allows the use of custom status codes for less common redirect types.
    ///
    /// In most cases the default "308 Permanent Redirect" status, or the
    /// "307 Temporary Redirect" status set by [`temporary`](Redirect::temporary),
    /// behave more consistently than the 301 and 302 codes, respectively.
    pub fn using_status_code(self, status: u16) -> (r: Self)
        requires
            1 <= status <= 999,
        ensures
            r@.source == self@.source,
            r@.target == self@.target,
            r@.status == status,
            r.wf(),
    {
        Redirect { from: self.from, to: self.to, status_code: status }
    }

    /// Evaluates this rule on the path of a matched request.
    ///
    /// The host router guarantees that the request path ends with the rule's
    /// source path; under that guarantee the returned descriptor carries the
    /// rule's status code and exactly the Location value `location_of`
    /// prescribes: the absolute target verbatim, or the mount prefix of the
    /// request followed by the relative target.
    pub fn evaluate(&self, request_path: &str) -> (resp: RedirectResponse)
        requires
            ends_with(request_path@, self@.source),
        ensures
            resp.status_code == self@.status,
            resp.location@ == location_of(self@, request_path@),
    {
        let location: String = match &self.to {
            Target::Absolute(t) => t.clone(),
            Target::Relative(t) => {
                let n = request_path.unicode_len();
                let k = self.from.as_str().unicode_len();
                let prefix = request_path.substring_char(0, n - k);
                prefix.to_owned().concat(t.as_str())
            },
        };
        RedirectResponse { status_code: self.status_code, location }
    }

    /// The path this rule answers for, as configured by [`from`](Redirect::from).
    pub fn source_path(&self) -> (r: &str)
        ensures
            r@ == self@.source,
    {
        self.from.as_str()
    }
}

/// Law: a rule with an absolute target yields that target as the Location
/// value, exactly and unchanged, on every request path that satisfies the
/// match guarantee.
pub proof fn lemma_absolute_target_location(rule: RedirectView, path: Seq<char>, t: Seq<char>)
    requires
        rule.target == TargetView::Absolute(t),
        ends_with(path, rule.source),
    ensures
        location_of(rule, path) == t,
{
}

/// Law: a rule with a relative target, evaluated on a request path made of
/// any mount prefix followed by the rule's source path, satisfies the match
/// guarantee and yields that prefix followed by the target — the same rule
/// composes correctly under every mount prefix.
pub proof fn lemma_relative_target_location(rule: RedirectView, prefix: Seq<char>, t: Seq<char>)
    requires
        rule.target == TargetView::Relative(t),
    ensures
        ends_with(prefix + rule.source, rule.source),
        location_of(rule, prefix + rule.source) == prefix + t,
{
    let path = prefix + rule.source;
    assert(path.subrange(path.len() - rule.source.len(), path.len() as int) =~= rule.source);
    assert(path.subrange(0, path.len() - rule.source.len()) =~= prefix);
}

/// Law: evaluation is deterministic. The Location value is a function of
/// the rule and the request path alone, so any two evaluations of the same
/// rule on the same path — as `evaluate` promises of its result — agree;
/// there is no hidden state to mutate between calls.
pub proof fn lemma_evaluation_deterministic(
    rule: RedirectView,
    path: Seq<char>,
    loc1: Seq<char>,
    loc2: Seq<char>,
)
    requires
        loc1 == location_of(rule, path),
        loc2 == location_of(rule, path),
    ensures
        loc1 == loc2,
{
}

} // verus!

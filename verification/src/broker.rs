//! The broker endpoint facade: a method whose name matches a registered
//! brokerage rule is owned by an external broker and never routed locally.

use vstd::prelude::*;
use crate::rpc::RpcRequest;
use crate::text::{str_eq, str_starts_with};

verus! {

/// One brokerage rule: an exact method name, or a name prefix.
#[derive(Debug)]
pub enum BrokerRule {
    Exact(String),
    Prefix(String),
}

/// Whether the rule claims the method name.
pub open spec fn rule_matches(rule: BrokerRule, method: Seq<char>) -> bool {
    match rule {
        BrokerRule::Exact(p) => method == p@,
        BrokerRule::Prefix(p) => p@.is_prefix_of(method),
    }
}

/// Whether any rule claims the method name.
pub open spec fn spec_brokered(rules: Seq<BrokerRule>, method: Seq<char>) -> bool {
    exists|i: int| 0 <= i < rules.len() && rule_matches(#[trigger] rules[i], method)
}

/// The set of registered brokerage rules.
#[derive(Debug)]
pub struct EndpointState {
    pub rules: Vec<BrokerRule>,
}

impl EndpointState {
    /// A facade with no rules: nothing is brokered.
    pub fn new() -> (r: Self)
        ensures
            r.rules@.len() == 0,
    {
        EndpointState { rules: Vec::new() }
    }

    /// Registers one rule.
    pub fn add_rule(&mut self, rule: BrokerRule)
        ensures
            final(self).rules@ == old(self).rules@.push(rule),
    {
        self.rules.push(rule);
    }

    /// Whether the broker takes ownership of the request: true exactly when
    /// a rule claims its method name. Non-blocking by construction.
    pub fn handle_brokerage(&self, request: &RpcRequest) -> (r: bool)
        ensures
            r == spec_brokered(self.rules@, request.method@),
    {
        let n = self.rules.len();
        let mut i: usize = 0;
        while i < n
            invariant
                n == self.rules@.len(),
                i <= n,
                forall|k: int| 0 <= k < i ==> !rule_matches(#[trigger] self.rules@[k], request.method@),
            decreases n - i,
        {
            let hit = match &self.rules[i] {
                BrokerRule::Exact(p) => str_eq(request.method.as_str(), p.as_str()),
                BrokerRule::Prefix(p) => str_starts_with(request.method.as_str(), p.as_str()),
            };
            if hit {
                return true;
            }
            i = i + 1;
        }
        false
    }
}

} // verus!

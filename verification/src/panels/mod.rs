//! Dashboard panels, and the shortcut list a panel derives from the actions
//! of its domain.
use vstd::prelude::*;

pub mod agent_tree;
pub mod budget;
pub mod chat;
pub mod chtc;
pub mod dag_viz;
pub mod experience_card_viz;
pub mod clv_vector;
pub mod decay;
pub mod event_stream;
pub mod filter_cache;
pub mod health;
pub mod help;
pub mod injection_strategy;
pub mod memory;
pub mod metrics_dashboard;
pub mod osa_sparse;
pub mod overwindow;
pub mod parliament;
pub mod pvl_score;
pub mod quest;
pub mod resource_monitor;
pub mod self_assessment;
pub mod list_state;
pub mod log;
pub mod mcp_nodes;
pub mod router;
pub mod security;
pub mod sysinfo;
pub mod task_manager;
pub mod timeline;

verus! {

/// An action of the action registry as the shortcut list reads it.
#[derive(Debug, Clone, Copy, PartialEq, Eq)]
pub struct ActionView {
    pub id: &'static str,
    pub default_key: Option<&'static str>,
    pub slash: Option<&'static str>,
    pub title_key: &'static str,
    /// Name of the domain the action belongs to.
    pub domain: &'static str,
}

/// The key shown for an action: its default key, else its slash word, else its id.
pub open spec fn action_key(a: ActionView) -> &'static str {
    match a.default_key {
        Some(k) => k,
        None => match a.slash {
            Some(s) => s,
            None => a.id,
        },
    }
}

/// The (key, title key) pairs of the first `n` actions that belong to `domain`, in registry order.
pub open spec fn domain_shortcuts(actions: Seq<ActionView>, domain: Seq<char>, n: int) -> Seq<
    (&'static str, &'static str),
>
    decreases n,
{
    if n <= 0 {
        Seq::empty()
    } else {
        let r = domain_shortcuts(actions, domain, n - 1);
        if actions[n - 1].domain@ == domain {
            r.push((action_key(actions[n - 1]), actions[n - 1].title_key))
        } else {
            r
        }
    }
}

/// The shortcuts of the actions of `domain`, in registry order: each action's
/// default key (else its slash word, else its id) with its title key.
pub fn shortcuts_from_domain(actions: &Vec<ActionView>, domain: &str) -> (r: Vec<(&'static str, &'static str)>)
    ensures
        r@ == domain_shortcuts(actions@, domain@, actions@.len() as int),
{
    let mut r: Vec<(&'static str, &'static str)> = Vec::new();
    let d = crate::text::string_of(domain);
    let mut i: usize = 0;
    while i < actions.len()
        invariant
            i <= actions@.len(),
            d@ == domain@,
            r@ == domain_shortcuts(actions@, domain@, i as int),
        decreases actions@.len() - i,
    {
        let a = actions[i];
        let ad = crate::text::string_of(a.domain);
        if ad == d {
            let key = match a.default_key {
                Some(k) => k,
                None => match a.slash {
                    Some(s) => s,
                    None => a.id,
                },
            };
            r.push((key, a.title_key));
        }
        i = i + 1;
    }
    r
}

} // verus!

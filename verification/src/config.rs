//! Checks the start parameters before anything is watched.
use vstd::prelude::*;
use crate::namespace::NamespaceScope;
use crate::notifier::notifier::{NotifierLogLevel, NotifierType};
use crate::resource::WatchedResource;

verus! {

/// Why the start parameters cannot be used.
#[derive(Debug, Clone, Copy, PartialEq, Eq, Structural)]
pub enum ConfigError {
    /// No entity kind is to be watched.
    NoResources,
    /// Neither every namespace nor a list of namespaces was chosen.
    NoNamespaceScope,
    /// Both every namespace and a list of namespaces were chosen.
    ConflictingNamespaceScope,
    /// The list of namespaces is empty.
    NoNamespaces,
    /// The chat notifier is active and has no token.
    MissingSlackToken,
    /// The chat notifier is active and has no channel.
    MissingSlackChannel,
}

/// The start parameters.
#[derive(Debug, Clone)]
pub struct Settings {
    /// The entity kinds to watch.
    pub resources: Vec<WatchedResource>,
    /// The namespaces in which namespaced kinds are watched.
    pub namespaces: Option<Vec<String>>,
    /// Whether every namespace is watched.
    pub all_namespaces: bool,
    /// The notifiers to run.
    pub notifiers: Vec<NotifierType>,
    pub slack_token: Option<String>,
    pub slack_channel: Option<String>,
    /// The threshold of every notifier.
    pub notifier_log_level: NotifierLogLevel,
    pub cluster_name: String,
}

impl Settings {
    /// Whether the chat notifier is among those to run.
    pub open spec fn wants_slack(&self) -> bool {
        self.notifiers@.contains(NotifierType::Slack)
    }

    /// The first fault of the parameters, if they have one: the kinds are
    /// looked at first, then the scope, then the chat notifier's credentials.
    pub open spec fn fault(&self) -> Option<ConfigError> {
        if self.resources@.len() == 0 {
            Some(ConfigError::NoResources)
        } else if self.all_namespaces && self.namespaces.is_some() {
            Some(ConfigError::ConflictingNamespaceScope)
        } else if !self.all_namespaces && self.namespaces.is_none() {
            Some(ConfigError::NoNamespaceScope)
        } else if !self.all_namespaces && self.namespaces.unwrap()@.len() == 0 {
            Some(ConfigError::NoNamespaces)
        } else if self.wants_slack() && self.slack_token.is_none() {
            Some(ConfigError::MissingSlackToken)
        } else if self.wants_slack() && self.slack_channel.is_none() {
            Some(ConfigError::MissingSlackChannel)
        } else {
            None
        }
    }

    /// The namespaces the parameters list, none where there is no list.
    pub open spec fn listed_namespaces(&self) -> Seq<String> {
        match self.namespaces {
            Some(names) => names@,
            None => Seq::empty(),
        }
    }

    /// The scope the parameters choose: every namespace where that was
    /// asked for, else the listed ones.
    pub fn namespace_scope(&self) -> (scope: NamespaceScope)
        ensures
            self.all_namespaces ==> scope is All,
            !self.all_namespaces ==> (scope matches NamespaceScope::Names(names) && names@
                == self.listed_namespaces()),
    {
        if self.all_namespaces {
            NamespaceScope::All
        } else {
            let mut names: Vec<String> = Vec::new();
            if let Some(listed) = &self.namespaces {
                let mut i: usize = 0;
                while i < listed.len()
                    invariant
                        i <= listed.len(),
                        names@ == listed@.take(i as int),
                    decreases listed.len() - i,
                {
                    names.push(listed[i].clone());
                    assert(names@ =~= listed@.take(i as int + 1));
                    i += 1;
                }
                assert(listed@.take(i as int) =~= listed@);
            }
            NamespaceScope::Names(names)
        }
    }

    /// Tells whether the chat notifier is among those to run.
    pub fn slack_enabled(&self) -> (wanted: bool)
        ensures
            wanted == self.wants_slack(),
    {
        let mut i: usize = 0;
        while i < self.notifiers.len()
            invariant
                i <= self.notifiers.len(),
                forall|j: int| 0 <= j < i ==> self.notifiers@[j] != NotifierType::Slack,
            decreases self.notifiers.len() - i,
        {
            if self.notifiers[i] == NotifierType::Slack {
                return true;
            }
            i += 1;
        }
        false
    }

    /// Accepts the parameters, or names their first fault.
    pub fn check(&self) -> (outcome: Result<(), ConfigError>)
        ensures
            outcome == (match self.fault() {
                Some(error) => Err::<(), ConfigError>(error),
                None => Ok(()),
            }),
    {
        if self.resources.len() == 0 {
            return Err(ConfigError::NoResources);
        }
        match &self.namespaces {
            Some(names) => {
                if self.all_namespaces {
                    return Err(ConfigError::ConflictingNamespaceScope);
                }
                if names.len() == 0 {
                    return Err(ConfigError::NoNamespaces);
                }
            },
            None => {
                if !self.all_namespaces {
                    return Err(ConfigError::NoNamespaceScope);
                }
            },
        }
        if self.slack_enabled() {
            if self.slack_token.is_none() {
                return Err(ConfigError::MissingSlackToken);
            }
            if self.slack_channel.is_none() {
                return Err(ConfigError::MissingSlackChannel);
            }
        }
        Ok(())
    }
}

} // verus!

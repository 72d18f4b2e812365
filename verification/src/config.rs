//! Settings of the bot: the two services, what is switched on, and how
//! repository names of the upstream service map to names of the downstream one.

use crate::commands::CommandAction;
use crate::text::{str_eq, views};
use vstd::prelude::*;
use vstd::string::*;

verus! {

/// A part of the bot that can be switched on.
#[derive(Debug, Clone, Copy, PartialEq, Eq, Structural)]
pub enum Feature {
    /// Mirroring of pull requests that come from forks.
    ExternalPr,
    /// Commands in pull-request comments.
    Commands,
}

/// The feature that the settings call `name`.
pub open spec fn feature_named(name: Seq<char>) -> Option<Feature> {
    if name == "ExternalPr"@ {
        Some(Feature::ExternalPr)
    } else if name == "Commands"@ {
        Some(Feature::Commands)
    } else {
        None
    }
}

/// The feature that the settings call `name`, if there is one.
pub fn feature_from_name(name: &str) -> (feature: Option<Feature>)
    ensures
        feature == feature_named(name@),
{
    if str_eq(name, "ExternalPr") {
        Some(Feature::ExternalPr)
    } else if str_eq(name, "Commands") {
        Some(Feature::Commands)
    } else {
        None
    }
}

/// Where the bot listens.
#[derive(Debug, Clone, PartialEq, Eq)]
pub struct Server {
    pub bindto: String,
}

/// One of the two services and the bot's credentials there.
#[derive(Debug, Clone, PartialEq, Eq)]
pub struct Site {
    /// Host name; the service's public host when absent.
    pub hostname: Option<String>,
    pub api_token: String,
    pub webhook_secret: String,
    /// The bot's user name on the service.
    pub username: String,
    /// Path of the SSH private key used for git transport.
    pub ssh_key: String,
}

/// The name that a map gives for `name`: the mapped name where the map has
/// one, else `name` itself.
pub open spec fn lab_name(map: Map<Seq<char>, Seq<char>>, name: Seq<char>) -> Seq<char> {
    if map.dom().contains(name) {
        map[name]
    } else {
        name
    }
}

/// The map that a list of pairs denotes; of two pairs with one key the later
/// one counts.
pub open spec fn pairs_map(pairs: Seq<(String, String)>) -> Map<Seq<char>, Seq<char>>
    decreases pairs.len(),
{
    if pairs.len() == 0 {
        Map::empty()
    } else {
        pairs_map(pairs.drop_last()).insert(pairs.last().0@, pairs.last().1@)
    }
}

proof fn lemma_pairs_map_found(pairs: Seq<(String, String)>, key: Seq<char>, i: int)
    requires
        0 <= i < pairs.len(),
        pairs[i].0@ == key,
        forall|j: int| i < j < pairs.len() ==> pairs[j].0@ != key,
    ensures
        pairs_map(pairs).dom().contains(key),
        pairs_map(pairs)[key] == pairs[i].1@,
    decreases pairs.len(),
{
    if i < pairs.len() - 1 {
        lemma_pairs_map_found(pairs.drop_last(), key, i);
    }
}

proof fn lemma_pairs_map_absent(pairs: Seq<(String, String)>, key: Seq<char>)
    requires
        forall|j: int| 0 <= j < pairs.len() ==> pairs[j].0@ != key,
    ensures
        !pairs_map(pairs).dom().contains(key),
    decreases pairs.len(),
{
    if pairs.len() > 0 {
        lemma_pairs_map_absent(pairs.drop_last(), key);
    }
}

/// Mapping of repository names from the upstream service to the
/// downstream one.
#[derive(Debug, Clone, PartialEq, Eq)]
pub struct NameMap {
    pairs: Vec<(String, String)>,
}

impl View for NameMap {
    type V = Map<Seq<char>, Seq<char>>;

    closed spec fn view(&self) -> Map<Seq<char>, Seq<char>> {
        pairs_map(self.pairs@)
    }
}

impl NameMap {
    /// A map without entries: every name stands for itself.
    pub fn new() -> (map: NameMap)
        ensures
            map@ == Map::<Seq<char>, Seq<char>>::empty(),
    {
        NameMap { pairs: Vec::new() }
    }

    /// Maps `hub` to `lab`, in place of any earlier entry for `hub`.
    pub fn insert(&mut self, hub: &str, lab: &str)
        ensures
            final(self)@ == old(self)@.insert(hub@, lab@),
    {
        let pair = (String::from_str(hub), String::from_str(lab));
        self.pairs.push(pair);
        assert(self.pairs@.drop_last() =~= old(self).pairs@);
    }

    /// The downstream name of the repository `name`: the mapped name where
    /// there is one, else `name` itself.
    pub fn lookup(&self, name: &str) -> (found: String)
        ensures
            found@ == lab_name(self@, name@),
    {
        let mut i: usize = self.pairs.len();
        while i > 0
            invariant
                i <= self.pairs.len(),
                forall|j: int| i <= j < self.pairs.len() ==> self.pairs[j].0@ != name@,
            decreases i,
        {
            i -= 1;
            if str_eq(self.pairs[i].0.as_str(), name) {
                proof {
                    lemma_pairs_map_found(self.pairs@, name@, i as int);
                }
                return self.pairs[i].1.clone();
            }
        }
        proof {
            lemma_pairs_map_absent(self.pairs@, name@);
        }
        String::from_str(name)
    }
}

/// Looking a name up twice gives what looking it up once gives, provided
/// that no mapped name is itself a name that the map has an entry for.
pub proof fn lemma_lookup_idempotent(map: Map<Seq<char>, Seq<char>>, name: Seq<char>)
    requires
        forall|hub: Seq<char>| map.dom().contains(hub) ==> !map.dom().contains(#[trigger] map[hub]),
    ensures
        lab_name(map, lab_name(map, name)) == lab_name(map, name),
{
}

/// The settings of the bot.
#[derive(Debug, Clone, PartialEq, Eq)]
pub struct Config {
    pub server: Server,
    pub github: Site,
    pub gitlab: Site,
    pub features: Vec<Feature>,
    /// The pull-request actions that are handled.
    pub enabled_actions: Vec<String>,
    pub enabled_commands: Vec<CommandAction>,
    pub hub_to_lab: NameMap,
}

/// The host of the upstream service when none is configured.
pub open spec fn default_github_host() -> Seq<char> {
    "github.com"@
}

/// The host of the downstream service when none is configured.
pub open spec fn default_gitlab_host() -> Seq<char> {
    "gitlab.com"@
}

/// The host of a service: the configured one, else `default`.
pub open spec fn host_or(site: Site, default: Seq<char>) -> Seq<char> {
    match site.hostname {
        Some(hostname) => hostname@,
        None => default,
    }
}

impl Site {
    /// The host of this service: the configured one, else `default`.
    pub fn hostname_or(&self, default: &str) -> (host: String)
        ensures
            host@ == host_or(*self, default@),
    {
        match &self.hostname {
            Some(hostname) => hostname.clone(),
            None => String::from_str(default),
        }
    }
}

impl Config {
    /// The host of the upstream service.
    pub fn github_hostname(&self) -> (host: String)
        ensures
            host@ == host_or(self.github, default_github_host()),
    {
        self.github.hostname_or("github.com")
    }

    /// The host of the downstream service.
    pub fn gitlab_hostname(&self) -> (host: String)
        ensures
            host@ == host_or(self.gitlab, default_gitlab_host()),
    {
        self.gitlab.hostname_or("gitlab.com")
    }
}

/// Whether `feature` is switched on.
pub fn feature_enabled(config: &Config, feature: &Feature) -> (enabled: bool)
    ensures
        enabled == config.features@.contains(*feature),
{
    let mut i: usize = 0;
    while i < config.features.len()
        invariant
            i <= config.features.len(),
            forall|j: int| 0 <= j < i ==> config.features[j] != *feature,
        decreases config.features.len() - i,
    {
        if config.features[i] == *feature {
            return true;
        }
        i += 1;
    }
    false
}

/// Whether pull-request events with the action `action` are handled.
pub fn action_enabled(config: &Config, action: &str) -> (enabled: bool)
    ensures
        enabled == views(config.enabled_actions@).contains(action@),
{
    let mut i: usize = 0;
    while i < config.enabled_actions.len()
        invariant
            i <= config.enabled_actions.len(),
            forall|j: int| 0 <= j < i ==> views(config.enabled_actions@)[j] != action@,
        decreases config.enabled_actions.len() - i,
    {
        if str_eq(config.enabled_actions[i].as_str(), action) {
            assert(views(config.enabled_actions@)[i as int] == action@);
            return true;
        }
        i += 1;
    }
    false
}

/// Whether the command `command` is switched on.
pub fn command_enabled(config: &Config, command: &CommandAction) -> (enabled: bool)
    ensures
        enabled == config.enabled_commands@.contains(*command),
{
    let mut i: usize = 0;
    while i < config.enabled_commands.len()
        invariant
            i <= config.enabled_commands.len(),
            forall|j: int| 0 <= j < i ==> config.enabled_commands[j] != *command,
        decreases config.enabled_commands.len() - i,
    {
        if config.enabled_commands[i] == *command {
            return true;
        }
        i += 1;
    }
    false
}

} // verus!

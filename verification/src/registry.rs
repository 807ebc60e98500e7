//! The application registry: a table from application key to launch target.

use crate::platform::Platform;
use vstd::prelude::*;

verus! {

/// One registered application: its key and what is launched for it, which is
/// a filesystem path, a command name found through the search path, or a URL.
#[derive(Debug)]
struct AppEntry {
    key: String,
    target: String,
}

/// A table of applications in which no key occurs twice. Entries keep the
/// order in which their keys were first inserted.
#[derive(Debug)]
pub struct Registry {
    entries: Vec<AppEntry>,
}

impl View for Registry {
    type V = Map<Seq<char>, Seq<char>>;

    /// The registry as a map from key to target.
    closed spec fn view(&self) -> Map<Seq<char>, Seq<char>> {
        Map::new(
            |key: Seq<char>| self.key_seq().contains(key),
            |key: Seq<char>| self.entries@[self.key_seq().index_of(key)].target@,
        )
    }
}

impl Registry {
    /// The registered keys in table order.
    pub closed spec fn key_seq(&self) -> Seq<Seq<char>> {
        Seq::new(self.entries@.len(), |i: int| self.entries@[i].key@)
    }

    #[verifier::type_invariant]
    spec fn keys_are_distinct(&self) -> bool {
        self.key_seq().no_duplicates()
    }

    /// An empty registry.
    pub fn new() -> (registry: Registry)
        ensures
            registry@ == Map::<Seq<char>, Seq<char>>::empty(),
            registry.key_seq() == Seq::<Seq<char>>::empty(),
    {
        let registry = Registry { entries: Vec::new() };
        assert(registry.key_seq() =~= Seq::<Seq<char>>::empty());
        assert(registry@ =~= Map::<Seq<char>, Seq<char>>::empty());
        registry
    }

    /// Where in the table `key` stands, if it is registered.
    fn position(&self, key: &String) -> (found: Option<usize>)
        ensures
            match found {
                Some(i) => i < self.key_seq().len() && self.key_seq()[i as int] == key@,
                None => !self.key_seq().contains(key@),
            },
    {
        let mut i: usize = 0;
        while i < self.entries.len()
            invariant
                i <= self.entries@.len(),
                forall|j: int| 0 <= j < i ==> self.key_seq()[j] != key@,
            decreases self.entries@.len() - i,
        {
            if self.entries[i].key == *key {
                return Some(i);
            }
            i += 1;
        }
        None
    }

    /// Every table row is in the map: the key of row `i` maps to the target
    /// of row `i`.
    proof fn lemma_row(&self, i: int)
        requires
            self.key_seq().no_duplicates(),
            0 <= i < self.key_seq().len(),
        ensures
            self@.contains_key(self.key_seq()[i]),
            self@[self.key_seq()[i]] == self.entries@[i].target@,
    {
        let key = self.key_seq()[i];
        assert(self.key_seq().contains(key));
        assert(self.key_seq().index_of(key) == i);
    }

    /// Registers `target` under `key`. A key that is already registered keeps
    /// its place in the table and gets the new target; a new key goes to the
    /// end of the table.
    pub fn insert(&mut self, key: &str, target: &str)
        ensures
            final(self)@ == old(self)@.insert(key@, target@),
            final(self).key_seq() == (if old(self)@.contains_key(key@) {
                old(self).key_seq()
            } else {
                old(self).key_seq().push(key@)
            }),
    {
        proof {
            use_type_invariant(&*self);
        }
        let ghost before = *self;
        let row = AppEntry { key: key.to_owned(), target: target.to_owned() };
        let found = self.position(&row.key);
        let mut entries: Vec<AppEntry> = Vec::new();
        core::mem::swap(&mut self.entries, &mut entries);
        match found {
            Some(i) => {
                entries.set(i, row);
            },
            None => {
                entries.push(row);
            },
        }
        proof {
            let after = Registry { entries };
            if found is Some {
                assert(after.key_seq() =~= before.key_seq());
            } else {
                assert(after.key_seq() =~= before.key_seq().push(key@));
            }
            assert forall|k: Seq<char>| #[trigger]
                after@.contains_key(k) implies before@.insert(key@, target@).contains_key(k)
                && after@[k] == before@.insert(key@, target@)[k] by {
                let j = after.key_seq().index_of(k);
                after.lemma_row(j);
                if k != key@ {
                    assert(before.key_seq()[j] == k);
                    before.lemma_row(j);
                }
            }
            assert forall|k: Seq<char>| #[trigger]
                before@.insert(key@, target@).contains_key(k) implies after@.contains_key(k) by {
                let j = if k != key@ {
                    before.key_seq().index_of(k)
                } else if found is Some {
                    found->0 as int
                } else {
                    before.key_seq().len() as int
                };
                assert(after.key_seq()[j] == k);
            }
            assert(after@ =~= before@.insert(key@, target@));
        }
        self.entries = entries;
    }

    /// Looks up the target registered for `key`.
    pub fn get(&self, key: &str) -> (found: Option<&str>)
        ensures
            match found {
                Some(target) => self@.contains_key(key@) && target@ == self@[key@],
                None => !self@.contains_key(key@),
            },
    {
        proof {
            use_type_invariant(self);
        }
        let wanted = key.to_owned();
        match self.position(&wanted) {
            Some(i) => Some(self.entries[i].target.as_str()),
            None => None,
        }
    }

    /// The registered keys in table order: each key once, and nothing else.
    pub fn keys(&self) -> (keys: Vec<String>)
        ensures
            keys.deep_view() == self.key_seq(),
            keys.deep_view().no_duplicates(),
            keys.deep_view().to_set() == self@.dom(),
    {
        proof {
            use_type_invariant(self);
        }
        let mut keys: Vec<String> = Vec::new();
        let mut i: usize = 0;
        while i < self.entries.len()
            invariant
                i <= self.entries@.len(),
                keys@.len() == i,
                forall|j: int| 0 <= j < i ==> keys@[j]@ == self.key_seq()[j],
            decreases self.entries@.len() - i,
        {
            keys.push(self.entries[i].key.clone());
            i += 1;
        }
        assert(keys.deep_view() =~= self.key_seq());
        assert(self.key_seq().to_set() =~= self@.dom());
        keys
    }
}

/// The key under which the Chatwork web page is registered.
pub const CHATWORK: &'static str = "chatwork";

/// The keys every platform registers, in table order.
pub open spec fn standard_keys() -> Seq<Seq<char>> {
    seq!["docker-desktop"@, "slack"@, "chatwork"@, "chrome"@]
}

/// What each platform registers under the standard keys: absolute paths on
/// Windows and macOS, command names on Linux, and the same URL for Chatwork
/// everywhere.
pub open spec fn platform_table(platform: Platform) -> Map<Seq<char>, Seq<char>> {
    match platform {
        Platform::Windows => map![
            "docker-desktop"@ => "C:\\Program Files\\Docker\\Docker\\Docker Desktop.exe"@,
            "slack"@ => "C:\\Users\\%USERNAME%\\AppData\\Local\\slack\\slack.exe"@,
            "chatwork"@ => "https://www.chatwork.com/"@,
            "chrome"@ => "C:\\Program Files\\Google\\Chrome\\Application\\chrome.exe"@,
        ],
        Platform::MacOs => map![
            "docker-desktop"@ => "/Applications/Docker.app/Contents/MacOS/Docker Desktop"@,
            "slack"@ => "/Applications/Slack.app/Contents/MacOS/Slack"@,
            "chatwork"@ => "https://www.chatwork.com/"@,
            "chrome"@ => "/Applications/Google Chrome.app/Contents/MacOS/Google Chrome"@,
        ],
        Platform::Linux => map![
            "docker-desktop"@ => "docker-desktop"@,
            "slack"@ => "/usr/bin/slack"@,
            "chatwork"@ => "https://www.chatwork.com/"@,
            "chrome"@ => "google-chrome"@,
        ],
    }
}

/// The standard keys are four different strings.
pub proof fn lemma_standard_keys_distinct()
    ensures
        standard_keys().no_duplicates(),
        standard_keys().len() == 4,
{
    reveal_strlit("docker-desktop");
    reveal_strlit("slack");
    reveal_strlit("chatwork");
    reveal_strlit("chrome");
    let keys = standard_keys();
    assert(keys[0].len() == 14 && keys[1].len() == 5 && keys[2].len() == 8 && keys[3].len() == 6);
}

/// Builds the registry of `platform`.
pub fn build_registry(platform: Platform) -> (registry: Registry)
    ensures
        registry@ == platform_table(platform),
        registry.key_seq() == standard_keys(),
{
    let mut registry = Registry::new();
    match platform {
        Platform::Windows => {
            registry.insert(
                "docker-desktop",
                "C:\\Program Files\\Docker\\Docker\\Docker Desktop.exe",
            );
            registry.insert("slack", "C:\\Users\\%USERNAME%\\AppData\\Local\\slack\\slack.exe");
            registry.insert("chatwork", "https://www.chatwork.com/");
            registry.insert(
                "chrome",
                "C:\\Program Files\\Google\\Chrome\\Application\\chrome.exe",
            );
        },
        Platform::MacOs => {
            registry.insert(
                "docker-desktop",
                "/Applications/Docker.app/Contents/MacOS/Docker Desktop",
            );
            registry.insert("slack", "/Applications/Slack.app/Contents/MacOS/Slack");
            registry.insert("chatwork", "https://www.chatwork.com/");
            registry.insert(
                "chrome",
                "/Applications/Google Chrome.app/Contents/MacOS/Google Chrome",
            );
        },
        Platform::Linux => {
            registry.insert("docker-desktop", "docker-desktop");
            registry.insert("slack", "/usr/bin/slack");
            registry.insert("chatwork", "https://www.chatwork.com/");
            registry.insert("chrome", "google-chrome");
        },
    }
    proof {
        lemma_standard_keys_distinct();
        assert(registry.key_seq() =~= standard_keys());
    }
    registry
}

} // verus!

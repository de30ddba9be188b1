use vstd::prelude::*;
use vstd::string::StringExecFns;
use crate::config::Config;
use crate::errors::CoreError;
use crate::openai::OpenAIFactory;
use crate::provider::EchoProvider;
use crate::provider::Provider;
use crate::provider::ProviderFactory;

verus! {

/// A factory for echo providers, under a caller-chosen registration
/// name and with a caller-chosen credential requirement. Its provider
/// answers every prompt with the prompt itself.
pub struct EchoFactory {
    pub name: String,
    pub requires_credential: bool,
}

impl EchoFactory {
    pub fn new(name: &str, requires_credential: bool) -> (r: EchoFactory)
        ensures
            r.name@ == name@,
            r.requires_credential == requires_credential,
    {
        EchoFactory { name: name.to_owned(), requires_credential }
    }
}

impl ProviderFactory for EchoFactory {
    open spec fn spec_name(&self) -> Seq<char> {
        self.name@
    }

    open spec fn spec_accepts(&self, config: Config) -> bool {
        !self.requires_credential || config.credential is Some
    }

    open spec fn spec_created(&self, config: Config, p: Provider) -> bool {
        p is Echo
    }

    open spec fn spec_rejection(&self, config: Config) -> Seq<char> {
        "a credential is required"@
    }

    fn name(&self) -> (r: String) {
        self.name.clone()
    }

    fn create(&self, config: &Config) -> (r: Result<Provider, CoreError>) {
        if self.requires_credential && !config.has_credential() {
            Err(CoreError::ConfigError(String::from_str("a credential is required")))
        } else {
            Ok(Provider::Echo(EchoProvider::new()))
        }
    }
}

/// Any factory the registry can hold, under one type.
pub enum Factory {
    Echo(EchoFactory),
    OpenAi(OpenAIFactory),
}

impl ProviderFactory for Factory {
    open spec fn spec_name(&self) -> Seq<char> {
        match self {
            Factory::Echo(f) => f.spec_name(),
            Factory::OpenAi(f) => f.spec_name(),
        }
    }

    open spec fn spec_accepts(&self, config: Config) -> bool {
        match self {
            Factory::Echo(f) => f.spec_accepts(config),
            Factory::OpenAi(f) => f.spec_accepts(config),
        }
    }

    open spec fn spec_created(&self, config: Config, p: Provider) -> bool {
        match self {
            Factory::Echo(f) => f.spec_created(config, p),
            Factory::OpenAi(f) => f.spec_created(config, p),
        }
    }

    open spec fn spec_rejection(&self, config: Config) -> Seq<char> {
        match self {
            Factory::Echo(f) => f.spec_rejection(config),
            Factory::OpenAi(f) => f.spec_rejection(config),
        }
    }

    fn name(&self) -> (r: String) {
        match self {
            Factory::Echo(f) => f.name(),
            Factory::OpenAi(f) => f.name(),
        }
    }

    fn create(&self, config: &Config) -> (r: Result<Provider, CoreError>) {
        match self {
            Factory::Echo(f) => f.create(config),
            Factory::OpenAi(f) => f.create(config),
        }
    }
}

/// The mapping a sequence of registrations denotes: later entries win.
pub open spec fn factories_map(entries: Seq<Factory>) -> Map<Seq<char>, Factory>
    decreases entries.len(),
{
    if entries.len() == 0 {
        Map::empty()
    } else {
        factories_map(entries.drop_last()).insert(entries.last().spec_name(), entries.last())
    }
}

proof fn lemma_map_contains(entries: Seq<Factory>, n: Seq<char>)
    ensures
        factories_map(entries).contains_key(n) <==> exists|i: int|
            0 <= i < entries.len() && (#[trigger] entries[i].spec_name()) == n,
    decreases entries.len(),
{
    if entries.len() > 0 {
        let prefix = entries.drop_last();
        lemma_map_contains(prefix, n);
        if entries.last().spec_name() == n {
            assert(entries[entries.len() - 1].spec_name() == n);
        } else {
            if factories_map(entries).contains_key(n) {
                let i = choose|i: int|
                    0 <= i < prefix.len() && (#[trigger] prefix[i].spec_name()) == n;
                assert(entries[i].spec_name() == n);
            }
            if exists|i: int| 0 <= i < entries.len() && (#[trigger] entries[i].spec_name()) == n {
                let i = choose|i: int|
                    0 <= i < entries.len() && (#[trigger] entries[i].spec_name()) == n;
                assert(prefix[i].spec_name() == n);
            }
        }
    }
}

proof fn lemma_map_at(entries: Seq<Factory>, i: int)
    requires
        0 <= i < entries.len(),
        forall|a: int, b: int|
            0 <= a < b < entries.len() ==> (#[trigger] entries[a].spec_name()) != (
            #[trigger] entries[b].spec_name()),
    ensures
        factories_map(entries).contains_key(entries[i].spec_name()),
        factories_map(entries)[entries[i].spec_name()] == entries[i],
    decreases entries.len(),
{
    let prefix = entries.drop_last();
    if i == entries.len() - 1 {
    } else {
        lemma_map_at(prefix, i);
        assert(entries[i].spec_name() != entries.last().spec_name());
    }
}

/// The process-wide mapping from registration name to factory. At
/// most one factory per name; registering an already-taken name
/// replaces the old factory. The registry never constructs a provider
/// on its own: construction happens only in `create_provider`, by
/// delegation to the named factory.
pub struct ProviderRegistry {
    factories: Vec<Factory>,
}

impl View for ProviderRegistry {
    type V = Map<Seq<char>, Factory>;

    closed spec fn view(&self) -> Map<Seq<char>, Factory> {
        factories_map(self.factories@)
    }
}

impl ProviderRegistry {
    /// No two registered factories share a name.
    pub closed spec fn wf(&self) -> bool {
        forall|a: int, b: int|
            0 <= a < b < self.factories@.len() ==> (#[trigger] self.factories@[a].spec_name()) != (
            #[trigger] self.factories@[b].spec_name())
    }

    /// An empty registry: every lookup fails.
    pub fn new() -> (r: ProviderRegistry)
        ensures
            r.wf(),
            r@ == Map::<Seq<char>, Factory>::empty(),
    {
        ProviderRegistry { factories: Vec::new() }
    }

    /// Insert `factory` under its own name, replacing any factory
    /// already registered under that name: the last writer wins.
    pub fn register(&mut self, factory: Factory)
        requires
            old(self).wf(),
        ensures
            final(self).wf(),
            final(self)@ == old(self)@.insert(factory.spec_name(), factory),
    {
        let name = factory.name();
        let n = self.factories.len();
        let mut i: usize = 0;
        while i < n
            invariant
                n == self.factories.len(),
                i <= n,
                name@ == factory.spec_name(),
                old(self).wf(),
                self == old(self),
                forall|k: int| 0 <= k < i ==> (#[trigger] self.factories@[k].spec_name()) != name@,
            decreases n - i,
        {
            if self.factories[i].name() == name {
                let ghost entries = self.factories@;
                self.factories[i] = factory;
                proof {
                    lemma_replace_at(entries, i as int, factory);
                }
                return ;
            }
            i = i + 1;
        }
        let ghost entries = self.factories@;
        self.factories.push(factory);
        proof {
            assert(self.factories@.drop_last() =~= entries);
            assert(self.factories@.last() == factory);
        }
    }

    /// Look the name up and, if a factory is registered under it,
    /// delegate construction to that factory, propagating its result
    /// unchanged. An unregistered name fails with `ProviderNotFound`,
    /// however many other names are registered; a registered factory
    /// that rejects the configuration fails with its `ConfigError`.
    pub fn create_provider(&self, name: &str, config: &Config) -> (r: Result<Provider, CoreError>)
        requires
            self.wf(),
        ensures
            !self@.contains_key(name@) ==> (r matches Err(e) && e matches
                CoreError::ProviderNotFound(m) && m@ == "Provider '"@ + name@ + "' not found"@),
            self@.contains_key(name@) ==> ({
                let f = self@[name@];
                &&& (r is Ok) == f.spec_accepts(*config)
                &&& (r matches Ok(p) ==> f.spec_created(*config, p))
                &&& (r matches Err(e) ==> (e matches CoreError::ConfigError(m) && m@
                    == f.spec_rejection(*config)))
            }),
    {
        let owned = name.to_owned();
        let n = self.factories.len();
        let mut i: usize = 0;
        while i < n
            invariant
                n == self.factories.len(),
                i <= n,
                owned@ == name@,
                self.wf(),
                forall|k: int| 0 <= k < i ==> (#[trigger] self.factories@[k].spec_name()) != name@,
            decreases n - i,
        {
            if self.factories[i].name() == owned {
                proof {
                    lemma_map_at(self.factories@, i as int);
                }
                return self.factories[i].create(config);
            }
            i = i + 1;
        }
        proof {
            lemma_map_contains(self.factories@, name@);
        }
        let mut m = String::from_str("Provider '");
        m.append(name);
        m.append("' not found");
        Err(CoreError::ProviderNotFound(m))
    }

    /// The names a lookup would currently succeed for: exactly the
    /// key set of the registry's mapping, each name once.
    pub fn available_providers(&self) -> (r: Vec<String>)
        requires
            self.wf(),
        ensures
            r.deep_view().to_set() == self@.dom(),
            forall|i: int| 0 <= i < r.deep_view().len() ==> self@.contains_key(
                #[trigger] r.deep_view()[i],
            ),
            forall|n: Seq<char>| self@.contains_key(n) ==> r.deep_view().contains(n),
            forall|i: int, j: int|
                0 <= i < j < r.deep_view().len() ==> r.deep_view()[i] != r.deep_view()[j],
    {
        let n = self.factories.len();
        let mut names: Vec<String> = Vec::new();
        let mut i: usize = 0;
        while i < n
            invariant
                n == self.factories.len(),
                i <= n,
                self.wf(),
                names.deep_view().len() == i,
                forall|k: int| 0 <= k < i ==> names.deep_view()[k] == (
                #[trigger] self.factories@[k].spec_name()),
            decreases n - i,
        {
            let ghost before = names.deep_view();
            names.push(self.factories[i].name());
            proof {
                assert(names.deep_view() =~= before.push(self.factories@[i as int].spec_name()));
            }
            i = i + 1;
        }
        proof {
            assert forall|k: int| 0 <= k < names.deep_view().len() implies self@.contains_key(
                #[trigger] names.deep_view()[k],
            ) by {
                lemma_map_at(self.factories@, k);
            }
            assert forall|nm: Seq<char>| self@.contains_key(nm) implies names.deep_view().contains(
                nm,
            ) by {
                lemma_map_contains(self.factories@, nm);
                let k = choose|k: int|
                    0 <= k < self.factories@.len() && (#[trigger] self.factories@[k].spec_name())
                        == nm;
                assert(names.deep_view()[k] == nm);
            }
            assert forall|i: int, j: int|
                0 <= i < j < names.deep_view().len() implies names.deep_view()[i]
                != names.deep_view()[j] by {
                assert(names.deep_view()[i] == self.factories@[i].spec_name());
                assert(names.deep_view()[j] == self.factories@[j].spec_name());
            }
            assert(names.deep_view().to_set() =~= self@.dom());
        }
        names
    }
}

proof fn lemma_replace_at(entries: Seq<Factory>, i: int, factory: Factory)
    requires
        0 <= i < entries.len(),
        entries[i].spec_name() == factory.spec_name(),
        forall|a: int, b: int|
            0 <= a < b < entries.len() ==> (#[trigger] entries[a].spec_name()) != (
            #[trigger] entries[b].spec_name()),
    ensures
        factories_map(entries.update(i, factory)) == factories_map(entries).insert(
            factory.spec_name(),
            factory,
        ),
        forall|a: int, b: int|
            0 <= a < b < entries.update(i, factory).len() ==> (#[trigger] entries.update(
                i,
                factory,
            )[a].spec_name()) != (#[trigger] entries.update(i, factory)[b].spec_name()),
    decreases entries.len(),
{
    let updated = entries.update(i, factory);
    if i == entries.len() - 1 {
        assert(updated.drop_last() =~= entries.drop_last());
        assert(updated.last() == factory);
        assert(factories_map(updated) == factories_map(entries.drop_last()).insert(
            factory.spec_name(),
            factory,
        ));
        assert(factories_map(entries.drop_last()).insert(entries.last().spec_name(), entries.last())
            .insert(factory.spec_name(), factory) =~= factories_map(entries.drop_last()).insert(
            factory.spec_name(),
            factory,
        ));
    } else {
        lemma_replace_at(entries.drop_last(), i, factory);
        assert(updated.drop_last() =~= entries.drop_last().update(i, factory));
        assert(updated.last() == entries.last());
        assert(entries[i].spec_name() != entries.last().spec_name());
        assert(factories_map(entries.drop_last()).insert(factory.spec_name(), factory).insert(
            entries.last().spec_name(),
            entries.last(),
        ) =~= factories_map(entries.drop_last()).insert(
            entries.last().spec_name(),
            entries.last(),
        ).insert(factory.spec_name(), factory));
    }
}

/// Law: registration is last-writer-wins. After registering `f`, the
/// name `f` carries is present, the factory a lookup sees under that
/// name is `f` itself — never a factory registered there earlier —
/// and every other name still maps to what it mapped to before.
pub proof fn lemma_last_registration_wins(m: Map<Seq<char>, Factory>, f: Factory)
    ensures
        m.insert(f.spec_name(), f).contains_key(f.spec_name()),
        m.insert(f.spec_name(), f)[f.spec_name()] == f,
        forall|n: Seq<char>|
            n != f.spec_name() ==> m.insert(f.spec_name(), f).contains_key(n) == m.contains_key(n),
        forall|n: Seq<char>|
            n != f.spec_name() && m.contains_key(n) ==> m.insert(f.spec_name(), f)[n] == m[n],
{
}

} // verus!

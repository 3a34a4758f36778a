//! The configuration of the proxy.
//!
//! Three texts configure the proxy: the base address of the upstream
//! service, the repository table, written `alias:repository,alias:repository`,
//! and the credentials that clients have to present, written `user:key`. They
//! are read once, when the proxy starts. A text that is missing or malformed
//! stops the start; nothing is repaired or guessed.

use crate::auth::ApiCredentials;
use crate::err::RepositoryNotFound;
use crate::text::{chars_of, find_from, next_index, split, split_text, text_of, texts};
use vstd::prelude::*;

verus! {

/// One line of the repository table: the alias under which the proxy offers
/// a repository, and the name of that repository upstream.
#[derive(Debug)]
pub struct Repository {
    pub alias: String,
    pub backend: String,
}

impl View for Repository {
    type V = (Seq<char>, Seq<char>);

    open spec fn view(&self) -> (Seq<char>, Seq<char>) {
        (self.alias@, self.backend@)
    }
}

/// The views of the lines of a repository table.
pub open spec fn lines(repositories: Seq<Repository>) -> Seq<(Seq<char>, Seq<char>)> {
    repositories.map_values(|r: Repository| r@)
}

/// The mapping that the lines of a repository table make, read in order: a
/// later line for an alias replaces an earlier one.
pub open spec fn table(lines: Seq<(Seq<char>, Seq<char>)>) -> Map<Seq<char>, Seq<char>>
    decreases lines.len(),
{
    if lines.len() == 0 {
        Map::empty()
    } else {
        table(lines.drop_last()).insert(lines.last().0, lines.last().1)
    }
}

/// What looking `alias` up in a repository table gives: the repository, or
/// the alias itself where the table does not hold it.
pub open spec fn resolution(table: Map<Seq<char>, Seq<char>>, alias: Seq<char>) -> Result<
    Seq<char>,
    Seq<char>,
> {
    if table.contains_key(alias) {
        Ok(table[alias])
    } else {
        Err(alias)
    }
}

/// Resolution is a function of the table and the alias: two configurations
/// with the same table resolve every alias alike, whatever else they hold
/// and however often they are asked. An alias that the table does not hold
/// is reported as not found.
pub proof fn lemma_resolution_is_a_function(
    first: ARProxyConfiguration,
    second: ARProxyConfiguration,
    alias: Seq<char>,
)
    requires
        first.table() == second.table(),
    ensures
        first.resolution(alias) == second.resolution(alias),
        !first.table().contains_key(alias) ==> first.resolution(alias) == Err::<
            Seq<char>,
            Seq<char>,
        >(alias),
{
}

/// The lines that the entries of a repository table give. An empty entry
/// gives none. Any other entry is parted at its colons: the first part is
/// the alias, the second the repository, and further parts are not read. An
/// entry without a colon makes the whole table invalid.
pub open spec fn table_lines(entries: Seq<Seq<char>>) -> Option<Seq<(Seq<char>, Seq<char>)>>
    decreases entries.len(),
{
    if entries.len() == 0 {
        Some(Seq::empty())
    } else {
        match table_lines(entries.drop_last()) {
            None => None,
            Some(before) => {
                let entry = entries.last();
                if entry.len() == 0 {
                    Some(before)
                } else if split(entry, ':').len() < 2 {
                    None
                } else {
                    Some(before.push((split(entry, ':')[0], split(entry, ':')[1])))
                }
            },
        }
    }
}

/// The lines of the repository table that `text` denotes: its entries are
/// parted by commas.
pub open spec fn repository_lines(text: Seq<char>) -> Option<Seq<(Seq<char>, Seq<char>)>> {
    table_lines(split(text, ','))
}

/// The user name and the key that `text` denotes: what stands before its
/// first colon, and what stands after it.
pub open spec fn credentials_pair(text: Seq<char>) -> Option<(Seq<char>, Seq<char>)> {
    let colon = next_index(text, 0, ':');
    if 0 <= colon < text.len() {
        Some((text.take(colon), text.skip(colon + 1)))
    } else {
        None
    }
}

/// Why the proxy cannot start.
#[derive(Clone, Copy, Debug, PartialEq, Eq, Structural)]
pub enum ConfigurationError {
    /// No base address of the upstream service is configured.
    MissingUrl,
    /// No repository table is configured.
    MissingRepositories,
    /// An entry of the repository table names no repository.
    RepositoryWithoutValue,
    /// No credentials are configured.
    MissingCredentials,
    /// The credentials are not of the form `user:key`.
    InvalidCredentials,
}

/// The configuration of a running proxy.
#[derive(Debug)]
pub struct ARProxyConfiguration {
    pub repositories: Vec<Repository>,
    pub url: String,
    pub creds: ApiCredentials,
}

/// The configuration that the three texts give, where each `None` stands for
/// a text that is not set. All three are required: the first that is missing
/// or malformed, in the order address, repository table, credentials, decides
/// the error.
pub open spec fn configuration_of(
    url: Option<Seq<char>>,
    repositories: Option<Seq<char>>,
    credentials: Option<Seq<char>>,
) -> Result<(Seq<(Seq<char>, Seq<char>)>, Seq<char>, (Seq<char>, Seq<char>)), ConfigurationError> {
    if url is None {
        Err(ConfigurationError::MissingUrl)
    } else if repositories is None {
        Err(ConfigurationError::MissingRepositories)
    } else if repository_lines(repositories->0) is None {
        Err(ConfigurationError::RepositoryWithoutValue)
    } else if credentials is None {
        Err(ConfigurationError::MissingCredentials)
    } else if credentials_pair(credentials->0) is None {
        Err(ConfigurationError::InvalidCredentials)
    } else {
        Ok((repository_lines(repositories->0)->0, url->0, credentials_pair(credentials->0)->0))
    }
}

/// No configuration is made without all three texts: where one is not set,
/// whatever the others say, the result is an error.
pub proof fn lemma_every_text_is_required(
    url: Option<Seq<char>>,
    repositories: Option<Seq<char>>,
    credentials: Option<Seq<char>>,
)
    requires
        url is None || repositories is None || credentials is None,
    ensures
        configuration_of(url, repositories, credentials) is Err,
        url is Some && repositories is Some && repository_lines(repositories->0) is Some
            ==> configuration_of(url, repositories, credentials) == Err::<
            (Seq<(Seq<char>, Seq<char>)>, Seq<char>, (Seq<char>, Seq<char>)),
            ConfigurationError,
        >(ConfigurationError::MissingCredentials),
{
}

/// Reads the repository table from its text.
pub fn parse_repositories(text: &str) -> (repositories: Option<Vec<Repository>>)
    ensures
        match repositories {
            Some(found) => repository_lines(text@) == Some(lines(found@)),
            None => repository_lines(text@) is None,
        },
{
    let entries = split_text(text, ',');
    let ghost all = texts(entries@);
    let mut repositories: Vec<Repository> = Vec::new();
    let mut i: usize = 0;
    assert(all.take(0) == Seq::<Seq<char>>::empty());
    assert(lines(repositories@) == Seq::<(Seq<char>, Seq<char>)>::empty());
    while i < entries.len()
        invariant
            i <= entries.len(),
            all == texts(entries@),
            all == split(text@, ','),
            table_lines(all.take(i as int)) == Some(lines(repositories@)),
        decreases entries.len() - i,
    {
        let entry = entries[i].as_str();
        assert(all.take(i + 1).drop_last() == all.take(i as int));
        assert(all.take(i + 1).last() == entry@);
        if !entry.is_empty() {
            let mut parts = split_text(entry, ':');
            if parts.len() < 2 {
                proof {
                    lemma_invalid_stays_invalid(all, i + 1);
                    assert(all.take(all.len() as int) == all);
                }
                return None;
            }
            let ghost before = lines(repositories@);
            let backend = parts.swap_remove(1);
            let alias = parts.swap_remove(0);
            repositories.push(Repository { alias, backend });
            assert(lines(repositories@) == before.push((alias@, backend@)));
        }
        i = i + 1;
    }
    assert(all.take(i as int) == all);
    Some(repositories)
}

/// Once a beginning of the entries is invalid, so is every longer one.
proof fn lemma_invalid_stays_invalid(entries: Seq<Seq<char>>, n: int)
    requires
        0 <= n <= entries.len(),
        table_lines(entries.take(n)) is None,
    ensures
        table_lines(entries) is None,
    decreases entries.len() - n,
{
    if n < entries.len() {
        assert(entries.take(n + 1).drop_last() == entries.take(n));
        lemma_invalid_stays_invalid(entries, n + 1);
    } else {
        assert(entries.take(n) == entries);
    }
}

/// Reads the credentials from their text.
pub fn parse_credentials(text: &str) -> (creds: Option<ApiCredentials>)
    ensures
        match creds {
            Some(found) => credentials_pair(text@) == Some((found.user@, found.key@)),
            None => credentials_pair(text@) is None,
        },
{
    let chars = chars_of(text);
    let colon = find_from(&chars, 0, ':');
    if colon < chars.len() {
        let user = text_of(&chars, 0, colon);
        let key = text_of(&chars, colon + 1, chars.len());
        Some(ApiCredentials { user, key })
    } else {
        None
    }
}

/// Whether `found` is the executable form of `wanted`.
pub open spec fn configuration_is(
    found: Result<ARProxyConfiguration, ConfigurationError>,
    wanted: Result<
        (Seq<(Seq<char>, Seq<char>)>, Seq<char>, (Seq<char>, Seq<char>)),
        ConfigurationError,
    >,
) -> bool {
    match found {
        Ok(configuration) => wanted == Ok::<
            (Seq<(Seq<char>, Seq<char>)>, Seq<char>, (Seq<char>, Seq<char>)),
            ConfigurationError,
        >(
            (
                lines(configuration.repositories@),
                configuration.url@,
                (configuration.creds.user@, configuration.creds.key@),
            ),
        ),
        Err(error) => wanted == Err::<
            (Seq<(Seq<char>, Seq<char>)>, Seq<char>, (Seq<char>, Seq<char>)),
            ConfigurationError,
        >(error),
    }
}

/// Text that may be missing, as the contracts see it.
pub open spec fn setting(text: Option<String>) -> Option<Seq<char>> {
    match text {
        Some(text) => Some(text@),
        None => None,
    }
}

/// Makes the configuration from the three texts, each of which may be
/// missing.
pub fn setup_configuration(
    url: Option<String>,
    repositories: Option<String>,
    credentials: Option<String>,
) -> (configuration: Result<ARProxyConfiguration, ConfigurationError>)
    ensures
        configuration_is(
            configuration,
            configuration_of(setting(url), setting(repositories), setting(credentials)),
        ),
{
    let url = match url {
        Some(url) => url,
        None => { return Err(ConfigurationError::MissingUrl); },
    };
    let repository_text = match repositories {
        Some(text) => text,
        None => { return Err(ConfigurationError::MissingRepositories); },
    };
    let repositories = match parse_repositories(repository_text.as_str()) {
        Some(repositories) => repositories,
        None => { return Err(ConfigurationError::RepositoryWithoutValue); },
    };
    let credential_text = match credentials {
        Some(text) => text,
        None => { return Err(ConfigurationError::MissingCredentials); },
    };
    let creds = match parse_credentials(credential_text.as_str()) {
        Some(creds) => creds,
        None => { return Err(ConfigurationError::InvalidCredentials); },
    };
    Ok(ARProxyConfiguration { repositories, url, creds })
}

impl ARProxyConfiguration {
    /// The repository table as a mapping from alias to repository.
    pub open spec fn table(&self) -> Map<Seq<char>, Seq<char>> {
        table(lines(self.repositories@))
    }

    /// The repository that `alias` stands for, or the alias itself where
    /// the table does not hold it.
    pub open spec fn resolution(&self, alias: Seq<char>) -> Result<Seq<char>, Seq<char>> {
        resolution(self.table(), alias)
    }

    /// The repository that `alias` stands for. Aliases are told apart
    /// exactly: no letter case is folded and no part of a name matches.
    pub fn resolve(&self, alias: &str) -> (backend: Result<&String, RepositoryNotFound>)
        ensures
            match backend {
                Ok(repository) => self.resolution(alias@) == Ok::<Seq<char>, Seq<char>>(
                    repository@,
                ),
                Err(error) => self.resolution(alias@) == Err::<Seq<char>, Seq<char>>(error.0@),
            },
    {
        let wanted = String::from_str(alias);
        let ghost all = lines(self.repositories@);
        let mut i: usize = self.repositories.len();
        assert(all.take(i as int) == all);
        while i > 0
            invariant
                i <= self.repositories.len(),
                wanted@ == alias@,
                all == lines(self.repositories@),
                table(all).contains_key(alias@) == table(all.take(i as int)).contains_key(alias@),
                table(all).contains_key(alias@) ==> table(all)[alias@] == table(
                    all.take(i as int),
                )[alias@],
            decreases i,
        {
            assert(all.take(i as int).drop_last() == all.take(i - 1));
            assert(all.take(i as int).last() == self.repositories@[i - 1]@);
            if self.repositories[i - 1].alias == wanted {
                return Ok(&self.repositories[i - 1].backend);
            }
            i = i - 1;
        }
        Err(RepositoryNotFound(wanted))
    }
}

} // verus!

//! Querying-related structures.

use crate::text::{
    chars_of, contains, find, find_from, has, parse_number, read_number, split, str_eq,
};
use vstd::prelude::*;
use vstd::string::StrSliceExecFns;
use vstd::string::StringExecFns;

verus! {

/// Describes options for a single query.
#[derive(Clone, Debug)]
pub struct Query {
    /// String passed to the api as `query`
    pub string: Option<String>,
    /// Number of the page to get, numbering starts at 1
    pub page: Option<usize>,
    /// Number of results per page
    pub per_page: Option<usize>,
    /// Match crates that contain a certain string keyword
    pub keyword: Option<String>,
    /// Specify one of the available categories
    pub category: Option<Category>,
    /// Sort the results on the API query level
    pub sort: Option<Sorting>,
}

/// What a query holds, as plain values.
pub struct QueryView {
    pub string: Option<Seq<char>>,
    pub page: Option<nat>,
    pub per_page: Option<nat>,
    pub keyword: Option<Seq<char>>,
    pub category: Option<Category>,
    pub sort: Option<Sorting>,
}

/// The characters of an optional string.
pub open spec fn text_of(s: Option<String>) -> Option<Seq<char>> {
    match s {
        Some(s) => Some(s@),
        None => None,
    }
}

/// The value of an optional number.
pub open spec fn number_of(n: Option<usize>) -> Option<nat> {
    match n {
        Some(n) => Some(n as nat),
        None => None,
    }
}

impl View for Query {
    type V = QueryView;

    open spec fn view(&self) -> QueryView {
        QueryView {
            string: text_of(self.string),
            page: number_of(self.page),
            per_page: number_of(self.per_page),
            keyword: text_of(self.keyword),
            category: self.category,
            sort: self.sort,
        }
    }
}

/// Whether a token ends in `=`, which leaves the option it names unset.
pub open spec fn open_ended(token: Seq<char>) -> bool {
    token.len() > 0 && token.last() == '='
}

/// What stands between the first `=` of a token and the next one, or the
/// end of the token where there is no second `=`.
pub open spec fn value_of(token: Seq<char>) -> Seq<char> {
    let rest = token.skip(find(token, '=') + 1);
    rest.take(find(rest, '='))
}

/// The options that a token of a raw query string can set.
#[derive(Clone, Copy, Debug, PartialEq, Eq, Structural)]
pub enum QueryOption {
    Category,
    Keyword,
    Sort,
    Page,
    PerPage,
}

/// The option that a token names, by a word that stands anywhere in it.
/// Where a token holds the words of several options, the first of them in
/// the order category, keyword, sorting, page, page size counts.
pub open spec fn named_option(token: Seq<char>) -> Option<QueryOption> {
    if contains(token, "cat="@) || contains(token, "category="@) {
        Some(QueryOption::Category)
    } else if contains(token, "keyword="@) || contains(token, "key"@) || contains(token, "kw"@) {
        Some(QueryOption::Keyword)
    } else if contains(token, "sort="@) {
        Some(QueryOption::Sort)
    } else if contains(token, "page="@) {
        Some(QueryOption::Page)
    } else if contains(token, "per-page"@) || contains(token, "num"@) {
        Some(QueryOption::PerPage)
    } else {
        None
    }
}

/// Whether a token names an option and gives a value for it.
pub open spec fn reads_value(token: Seq<char>) -> bool {
    named_option(token) is Some && !open_ended(token)
}

/// Whether a token can be read: one that names an option and gives a value
/// has to hold a `=`.
pub open spec fn well_formed(token: Seq<char>) -> bool {
    reads_value(token) ==> find(token, '=') < token.len()
}

/// Whether every one of a sequence of tokens can be read.
pub open spec fn all_well_formed(tokens: Seq<Seq<char>>) -> bool {
    forall|k: int| 0 <= k < tokens.len() ==> well_formed(#[trigger] tokens[k])
}

impl QueryView {
    /// The query that nothing has been said about: a hundred results per
    /// page, and no other option set.
    pub open spec fn initial() -> QueryView {
        QueryView {
            string: None,
            page: None,
            per_page: Some(100),
            keyword: None,
            category: None,
            sort: None,
        }
    }

    /// The query with one option set from the text of its value. A category
    /// or a sorting scheme that is not known unsets the option; a number
    /// that cannot be read leaves the query as it was.
    pub open spec fn with(self, option: QueryOption, value: Seq<char>) -> QueryView {
        match option {
            QueryOption::Category => QueryView { category: Category::parse(value), ..self },
            QueryOption::Keyword => QueryView { keyword: Some(value), ..self },
            QueryOption::Sort => QueryView { sort: Sorting::parse(value), ..self },
            QueryOption::Page => match parse_number(value, usize::MAX as nat) {
                Some(page) => QueryView { page: Some(page), ..self },
                None => self,
            },
            QueryOption::PerPage => match parse_number(value, usize::MAX as nat) {
                Some(per_page) => QueryView { per_page: Some(per_page), ..self },
                None => self,
            },
        }
    }

    /// The query after one more token has been read. A token that names an
    /// option sets it, unless it ends in `=`. A token without any `=` is the
    /// search string. Every other token is passed over.
    pub open spec fn apply(self, token: Seq<char>) -> QueryView {
        match named_option(token) {
            Some(option) => if open_ended(token) {
                self
            } else {
                self.with(option, value_of(token))
            },
            None => if find(token, '=') == token.len() {
                QueryView { string: Some(token), ..self }
            } else {
                self
            },
        }
    }

    /// The query after a sequence of tokens has been read, first to last.
    pub open spec fn apply_all(self, tokens: Seq<Seq<char>>) -> QueryView
        decreases tokens.len(),
    {
        if tokens.len() == 0 {
            self
        } else {
            self.apply(tokens[0]).apply_all(tokens.skip(1))
        }
    }
}

impl Default for Query {
    fn default() -> (query: Query)
        ensures
            query@ == QueryView::initial(),
    {
        Query {
            string: None,
            page: None,
            per_page: Some(100),
            keyword: None,
            category: None,
            sort: None,
        }
    }
}

/// The value that a token gives.
fn read_value<'a>(token: &'a str, chars: &Vec<char>) -> (value: &'a str)
    requires
        chars@ == token@,
        find(token@, '=') < token@.len(),
    ensures
        value@ == value_of(token@),
{
    assert(chars@.skip(0) =~= chars@);
    let first = find_from(chars, 0, '=');
    let second = find_from(chars, first + 1, '=');
    let value = token.substring_char(first + 1, second);
    assert(value@ =~= value_of(token@));
    value
}

impl Query {
    /// The query that a raw string describes: the tokens between single
    /// spaces, read first to last.
    pub open spec fn parse(input: Seq<char>) -> QueryView {
        QueryView::initial().apply_all(split(input, ' '))
    }

    /// Whether every token of a raw string can be read.
    pub open spec fn accepts(input: Seq<char>) -> bool {
        all_well_formed(split(input, ' '))
    }

    /// The option that a token names.
    fn option_of(chars: &Vec<char>) -> (option: Option<QueryOption>)
        ensures
            option == named_option(chars@),
    {
        if has(chars, "cat=") || has(chars, "category=") {
            Some(QueryOption::Category)
        } else if has(chars, "keyword=") || has(chars, "key") || has(chars, "kw") {
            Some(QueryOption::Keyword)
        } else if has(chars, "sort=") {
            Some(QueryOption::Sort)
        } else if has(chars, "page=") {
            Some(QueryOption::Page)
        } else if has(chars, "per-page") || has(chars, "num") {
            Some(QueryOption::PerPage)
        } else {
            None
        }
    }

    /// Sets one option from the text of its value.
    fn set(self, option: QueryOption, value: &str) -> (next: Query)
        ensures
            next@ == self@.with(option, value@),
    {
        let mut next = self;
        match option {
            QueryOption::Category => {
                next.category = Category::from_str(value);
            },
            QueryOption::Keyword => {
                next.keyword = Some(String::from_str(value));
            },
            QueryOption::Sort => {
                next.sort = Sorting::from_str(value);
            },
            QueryOption::Page => {
                if let Some(page) = read_number(&chars_of(value)) {
                    next.page = Some(page);
                }
            },
            QueryOption::PerPage => {
                if let Some(per_page) = read_number(&chars_of(value)) {
                    next.per_page = Some(per_page);
                }
            },
        }
        next
    }

    /// Reads one more token into the query.
    fn read(self, token: &str) -> (next: Query)
        requires
            well_formed(token@),
        ensures
            next@ == self@.apply(token@),
    {
        let chars = chars_of(token);
        let ends_open = chars.len() > 0 && chars[chars.len() - 1] == '=';
        match Query::option_of(&chars) {
            Some(option) => if ends_open {
                self
            } else {
                self.set(option, read_value(token, &chars))
            },
            None => {
                assert(chars@.skip(0) =~= chars@);
                if find_from(&chars, 0, '=') == chars.len() {
                    let mut next = self;
                    next.string = Some(String::from_str(token));
                    next
                } else {
                    self
                }
            },
        }
    }

    /// Whether a token can be read.
    fn can_read(token: &str) -> (ok: bool)
        ensures
            ok == well_formed(token@),
    {
        let chars = chars_of(token);
        let ends_open = chars.len() > 0 && chars[chars.len() - 1] == '=';
        assert(chars@.skip(0) =~= chars@);
        ends_open || find_from(&chars, 0, '=') < chars.len() || Query::option_of(&chars).is_none()
    }

    /// Parses raw string into a query struct, if every token of it can be
    /// read.
    pub fn try_from_str(input: &str) -> (query: Option<Query>)
        ensures
            match query {
                Some(query) => Query::accepts(input@) && query@ == Query::parse(input@),
                None => !Query::accepts(input@),
            },
    {
        let chars = chars_of(input);
        let mut start: usize = 0;
        assert(chars@.skip(0) =~= chars@);
        loop
            invariant
                start <= chars.len(),
                chars@ == input@,
                Query::accepts(input@) == all_well_formed(split(chars@.skip(start as int), ' ')),
            decreases chars.len() - start,
        {
            let end = find_from(&chars, start, ' ');
            let token = input.substring_char(start, end);
            proof {
                let rest = chars@.skip(start as int);
                let tokens = split(rest, ' ');
                assert(token@ =~= rest.take(end - start));
                assert(tokens[0] == token@);
                if end < chars.len() {
                    let tail = split(chars@.skip(end + 1), ' ');
                    assert(rest.skip(end - start + 1) =~= chars@.skip(end + 1));
                    assert(tokens =~= seq![token@] + tail);
                    if all_well_formed(tail) && well_formed(token@) {
                        assert forall|k: int| 0 <= k < tokens.len() implies well_formed(
                            #[trigger] tokens[k],
                        ) by {
                            if k > 0 {
                                assert(tokens[k] == tail[k - 1]);
                            }
                        }
                    }
                    if all_well_formed(tokens) {
                        assert forall|k: int| 0 <= k < tail.len() implies well_formed(
                            #[trigger] tail[k],
                        ) by {
                            assert(tail[k] == tokens[k + 1]);
                        }
                    }
                } else {
                    assert(rest.take(end - start) =~= rest);
                    assert(tokens =~= seq![token@]);
                }
            }
            if !Query::can_read(token) {
                return None;
            }
            if end == chars.len() {
                return Some(Query::from_str(input));
            }
            start = end + 1;
        }
    }

    /// Parses raw string into a query struct.
    ///
    /// The string is cut at every single space, and each token sets at most
    /// one option: `cat=` or `category=`, `keyword=` (or any token holding
    /// `key` or `kw`), `sort=`, `page=`, and `per-page` or `num`. A token
    /// without `=` is the search string. A token that ends in `=` sets
    /// nothing.
    ///
    /// # Examples
    ///
    /// Search for `api` string in the `web-programming` category, showing the
    /// most recently updated crates first:
    ///
    /// ```text
    /// api cat=web sort=update
    /// ```
    ///
    /// Search for `net` string in the `game-development` category, sorting by
    /// amount of recent downloads.
    ///
    /// ```text
    /// net cat=gamedev sort=rdl
    /// ```
    pub fn from_str(input: &str) -> (query: Query)
        requires
            Query::accepts(input@),
        ensures
            query@ == Query::parse(input@),
    {
        let chars = chars_of(input);
        let mut query = Query::default();
        let mut start: usize = 0;
        assert(chars@.skip(0) =~= chars@);
        loop
            invariant
                start <= chars.len(),
                chars@ == input@,
                Query::parse(input@) == query@.apply_all(split(chars@.skip(start as int), ' ')),
                all_well_formed(split(chars@.skip(start as int), ' ')),
            decreases chars.len() - start,
        {
            let end = find_from(&chars, start, ' ');
            let token = input.substring_char(start, end);
            proof {
                let rest = chars@.skip(start as int);
                let tokens = split(rest, ' ');
                assert(token@ =~= rest.take(end - start));
                assert(tokens[0] == token@);
                if end < chars.len() {
                    let tail = split(chars@.skip(end + 1), ' ');
                    assert(rest.skip(end - start + 1) =~= chars@.skip(end + 1));
                    assert(tokens.skip(1) =~= tail);
                    assert forall|k: int| 0 <= k < tail.len() implies well_formed(
                        #[trigger] tail[k],
                    ) by {
                        assert(tail[k] == tokens[k + 1]);
                    }
                } else {
                    assert(rest.take(end - start) =~= rest);
                    assert(tokens.skip(1) =~= Seq::<Seq<char>>::empty());
                }
            }
            query = query.read(token);
            if end == chars.len() {
                assert(query@.apply_all(Seq::<Seq<char>>::empty()) == query@);
                return query;
            }
            start = end + 1;
        }
    }
}


/// Available sorting schemes.
#[derive(Clone, Copy, Debug, PartialEq, Eq, Structural)]
pub enum Sorting {
    Alphabetical,
    AllTimeDownloads,
    RecentDownloads,
    RecentUpdates,
    NewlyAdded,
}

impl Sorting {
    /// The name under which the registry knows this sorting scheme.
    pub open spec fn name(self) -> Seq<char> {
        match self {
            Sorting::Alphabetical => "alpha"@,
            Sorting::AllTimeDownloads => "downloads"@,
            Sorting::RecentDownloads => "recent-downloads"@,
            Sorting::RecentUpdates => "recent-updates"@,
            Sorting::NewlyAdded => "new"@,
        }
    }

    /// The sorting scheme that a name or one of its short forms stands for.
    pub open spec fn parse(s: Seq<char>) -> Option<Sorting> {
        if s == "alpha"@
            || s == "alphabet"@
            || s == "alphabetic"@
            || s == "alphabetical"@ {
            Some(Sorting::Alphabetical)
        } else if s == "downloads"@
            || s == "download"@
            || s == "dl"@
            || s == "all-time"@ {
            Some(Sorting::AllTimeDownloads)
        } else if s == "recent-downloads"@
            || s == "rdl"@
            || s == "new-downloads"@ {
            Some(Sorting::RecentDownloads)
        } else if s == "recent-updates"@
            || s == "new-updates"@
            || s == "updates"@
            || s == "update"@
            || s == "rup"@ {
            Some(Sorting::RecentUpdates)
        } else if s == "newly-added"@
            || s == "new"@
            || s == "newest"@
            || s == "latest"@ {
            Some(Sorting::NewlyAdded)
        } else {
            None
        }
    }

    /// The name under which the registry knows this sorting scheme.
    pub fn to_str(&self) -> (name: &'static str)
        ensures
            name@ == self.name(),
    {
        match self {
            Sorting::Alphabetical => "alpha",
            Sorting::AllTimeDownloads => "downloads",
            Sorting::RecentDownloads => "recent-downloads",
            Sorting::RecentUpdates => "recent-updates",
            Sorting::NewlyAdded => "new",
        }
    }

    /// Reads a sorting scheme from its name or from one of the accepted short forms.
    pub fn from_str(input: &str) -> (parsed: Option<Sorting>)
        ensures
            parsed == Sorting::parse(input@),
    {
        if str_eq(input, "alpha")
            || str_eq(input, "alphabet")
            || str_eq(input, "alphabetic")
            || str_eq(input, "alphabetical") {
            Some(Sorting::Alphabetical)
        } else if str_eq(input, "downloads")
            || str_eq(input, "download")
            || str_eq(input, "dl")
            || str_eq(input, "all-time") {
            Some(Sorting::AllTimeDownloads)
        } else if str_eq(input, "recent-downloads")
            || str_eq(input, "rdl")
            || str_eq(input, "new-downloads") {
            Some(Sorting::RecentDownloads)
        } else if str_eq(input, "recent-updates")
            || str_eq(input, "new-updates")
            || str_eq(input, "updates")
            || str_eq(input, "update")
            || str_eq(input, "rup") {
            Some(Sorting::RecentUpdates)
        } else if str_eq(input, "newly-added")
            || str_eq(input, "new")
            || str_eq(input, "newest")
            || str_eq(input, "latest") {
            Some(Sorting::NewlyAdded)
        } else {
            None
        }
    }
}

/// Categories available on `crates.io`.
#[derive(Clone, Copy, Debug, PartialEq, Eq, Structural)]
pub enum Category {
    Accessibility,
    Algorithms,
    ApiBindings,
    Asynchronous,
    Authentication,
    Caching,
    CommandLineInterface,
    CommandLineUtilities,
    Compilers,
    Compression,
    ComputerVision,
    Concurrency,
    Config,
    Cryptography,
    Database,
    DatabaseImplementations,
    DataStructures,
    DateAndTime,
    DevelopmentTools,
    Email,
    Embedded,
    Emulators,
    Encoding,
    ExternalFfiBindings,
    Filesystem,
    GameDevelopment,
    GameEngines,
    Games,
    Graphics,
    Gui,
    HardwareSupport,
    Internationalization,
    Localization,
    Mathematics,
    MemoryManagement,
    Multimedia,
    NetworkProgramming,
    NoStd,
    Os,
    ParserImplementations,
    Parsing,
    Rendering,
    RustPatterns,
    Science,
    Simulation,
    TemplateEngine,
    TextEditors,
    TextProcessing,
    ValueFormatting,
    Visualization,
    Wasm,
    WebProgramming,
}

impl Category {
    /// The name under which the registry knows this category.
    pub open spec fn name(self) -> Seq<char> {
        match self {
            Category::Accessibility => "accessibility"@,
            Category::Algorithms => "algorithms"@,
            Category::ApiBindings => "api-bindings"@,
            Category::Asynchronous => "asynchronous"@,
            Category::Authentication => "authentication"@,
            Category::Caching => "caching"@,
            Category::CommandLineInterface => "command-line-interface"@,
            Category::CommandLineUtilities => "command-line-utilities"@,
            Category::Compilers => "compilers"@,
            Category::Compression => "compression"@,
            Category::ComputerVision => "computer-vision"@,
            Category::Concurrency => "concurrency"@,
            Category::Config => "config"@,
            Category::Cryptography => "cryptography"@,
            Category::Database => "database"@,
            Category::DatabaseImplementations => "database-implementations"@,
            Category::DataStructures => "data-structures"@,
            Category::DateAndTime => "date-and-time"@,
            Category::DevelopmentTools => "development-tools"@,
            Category::Email => "email"@,
            Category::Embedded => "embedded"@,
            Category::Emulators => "emulators"@,
            Category::Encoding => "encoding"@,
            Category::ExternalFfiBindings => "external-ffi-bindings"@,
            Category::Filesystem => "filesystems"@,
            Category::GameDevelopment => "game-development"@,
            Category::GameEngines => "game-engines"@,
            Category::Games => "games"@,
            Category::Graphics => "graphics"@,
            Category::Gui => "gui"@,
            Category::HardwareSupport => "hardware-support"@,
            Category::Internationalization => "internationalization"@,
            Category::Localization => "localization"@,
            Category::Mathematics => "mathematics"@,
            Category::MemoryManagement => "memory-management"@,
            Category::Multimedia => "multimedia"@,
            Category::NetworkProgramming => "network-programming"@,
            Category::NoStd => "no-std"@,
            Category::Os => "os"@,
            Category::ParserImplementations => "parser-implementations"@,
            Category::Parsing => "parsing"@,
            Category::Rendering => "rendering"@,
            Category::RustPatterns => "rust-patterns"@,
            Category::Science => "science"@,
            Category::Simulation => "simulation"@,
            Category::TemplateEngine => "template-engine"@,
            Category::TextEditors => "text-editors"@,
            Category::TextProcessing => "text-processing"@,
            Category::ValueFormatting => "value-formatting"@,
            Category::Visualization => "visualization"@,
            Category::Wasm => "wasm"@,
            Category::WebProgramming => "web-programming"@,
        }
    }

    /// The category that a name or one of its short forms stands for.
    pub open spec fn parse(s: Seq<char>) -> Option<Category> {
        if s == "accessibility"@
            || s == "access"@
            || s == "accessible"@ {
            Some(Category::Accessibility)
        } else if s == "algorithms"@
            || s == "algo"@
            || s == "algorithm"@
            || s == "algorithmic"@ {
            Some(Category::Algorithms)
        } else if s == "api-bindings"@
            || s == "bindings"@
            || s == "api"@ {
            Some(Category::ApiBindings)
        } else if s == "asynchronous"@
            || s == "async"@ {
            Some(Category::Asynchronous)
        } else if s == "authentication"@
            || s == "auth"@
            || s == "authenticate"@ {
            Some(Category::Authentication)
        } else if s == "caching"@
            || s == "cache"@ {
            Some(Category::Caching)
        } else if s == "command-line-interface"@
            || s == "cli"@ {
            Some(Category::CommandLineInterface)
        } else if s == "command-line-utilities"@
            || s == "util"@
            || s == "utility"@
            || s == "utilities"@ {
            Some(Category::CommandLineUtilities)
        } else if s == "compilers"@
            || s == "compiler"@ {
            Some(Category::Compilers)
        } else if s == "compression"@
            || s == "compress"@ {
            Some(Category::Compression)
        } else if s == "computer-vision"@
            || s == "vision"@ {
            Some(Category::ComputerVision)
        } else if s == "concurrency"@
            || s == "concurrent"@ {
            Some(Category::Concurrency)
        } else if s == "config"@
            || s == "cfg"@
            || s == "conf"@ {
            Some(Category::Config)
        } else if s == "cryptography"@
            || s == "crypto"@ {
            Some(Category::Cryptography)
        } else if s == "database"@
            || s == "db"@ {
            Some(Category::Database)
        } else if s == "database-implementations"@
            || s == "db-impl"@ {
            Some(Category::DatabaseImplementations)
        } else if s == "data-structures"@
            || s == "struct"@
            || s == "structs"@
            || s == "structures"@ {
            Some(Category::DataStructures)
        } else if s == "date-and-time"@
            || s == "date"@
            || s == "time"@
            || s == "datetime"@ {
            Some(Category::DateAndTime)
        } else if s == "development-tools"@
            || s == "dev-tools"@
            || s == "tools"@ {
            Some(Category::DevelopmentTools)
        } else if s == "email"@
            || s == "mail"@ {
            Some(Category::Email)
        } else if s == "embedded"@
            || s == "embed"@ {
            Some(Category::Embedded)
        } else if s == "emulators"@
            || s == "emulation"@
            || s == "emulate"@ {
            Some(Category::Emulators)
        } else if s == "encoding"@
            || s == "encode"@
            || s == "encoders"@ {
            Some(Category::Encoding)
        } else if s == "external-ffi-bindings"@
            || s == "ffi"@ {
            Some(Category::ExternalFfiBindings)
        } else if s == "filesystem"@
            || s == "fs"@
            || s == "filesystems"@ {
            Some(Category::Filesystem)
        } else if s == "game-development"@
            || s == "gamedev"@
            || s == "game-dev"@ {
            Some(Category::GameDevelopment)
        } else if s == "game-engines"@
            || s == "game-engine"@
            || s == "engines"@ {
            Some(Category::GameEngines)
        } else if s == "games"@
            || s == "game"@ {
            Some(Category::Games)
        } else if s == "graphics"@ {
            Some(Category::Graphics)
        } else if s == "gui"@
            || s == "ui"@ {
            Some(Category::Gui)
        } else if s == "hardware-support"@
            || s == "hardware"@ {
            Some(Category::HardwareSupport)
        } else if s == "internationalization"@
            || s == "i18n"@ {
            Some(Category::Internationalization)
        } else if s == "localization"@
            || s == "localizations"@ {
            Some(Category::Localization)
        } else if s == "mathematics"@
            || s == "maths"@
            || s == "math"@ {
            Some(Category::Mathematics)
        } else if s == "memory-management"@
            || s == "memory"@
            || s == "mem"@ {
            Some(Category::MemoryManagement)
        } else if s == "multimedia"@
            || s == "media"@ {
            Some(Category::Multimedia)
        } else if s == "network-programming"@
            || s == "net"@
            || s == "network"@
            || s == "networking"@ {
            Some(Category::NetworkProgramming)
        } else if s == "no-std"@
            || s == "nostd"@ {
            Some(Category::NoStd)
        } else if s == "os"@
            || s == "operating-system"@ {
            Some(Category::Os)
        } else if s == "parser-implementations"@
            || s == "parsers"@ {
            Some(Category::ParserImplementations)
        } else if s == "parsing"@
            || s == "parse"@ {
            Some(Category::Parsing)
        } else if s == "rendering"@
            || s == "render"@ {
            Some(Category::Rendering)
        } else if s == "rust-patterns"@
            || s == "patterns"@ {
            Some(Category::RustPatterns)
        } else if s == "science"@
            || s == "scientific"@
            || s == "sci"@ {
            Some(Category::Science)
        } else if s == "simulation"@
            || s == "sim"@
            || s == "simulators"@ {
            Some(Category::Simulation)
        } else if s == "template-engine"@
            || s == "template-engines"@
            || s == "template"@ {
            Some(Category::TemplateEngine)
        } else if s == "text-editors"@
            || s == "editors"@ {
            Some(Category::TextEditors)
        } else if s == "text-processing"@
            || s == "text"@
            || s == "processing"@ {
            Some(Category::TextProcessing)
        } else if s == "value-formatting"@
            || s == "formatting"@ {
            Some(Category::ValueFormatting)
        } else if s == "visualization"@
            || s == "visual"@
            || s == "vis"@
            || s == "visualize"@ {
            Some(Category::Visualization)
        } else if s == "wasm"@ {
            Some(Category::Wasm)
        } else if s == "web-programming"@
            || s == "web"@ {
            Some(Category::WebProgramming)
        } else {
            None
        }
    }

    /// The name under which the registry knows this category.
    pub fn to_str(&self) -> (name: &'static str)
        ensures
            name@ == self.name(),
    {
        match self {
            Category::Accessibility => "accessibility",
            Category::Algorithms => "algorithms",
            Category::ApiBindings => "api-bindings",
            Category::Asynchronous => "asynchronous",
            Category::Authentication => "authentication",
            Category::Caching => "caching",
            Category::CommandLineInterface => "command-line-interface",
            Category::CommandLineUtilities => "command-line-utilities",
            Category::Compilers => "compilers",
            Category::Compression => "compression",
            Category::ComputerVision => "computer-vision",
            Category::Concurrency => "concurrency",
            Category::Config => "config",
            Category::Cryptography => "cryptography",
            Category::Database => "database",
            Category::DatabaseImplementations => "database-implementations",
            Category::DataStructures => "data-structures",
            Category::DateAndTime => "date-and-time",
            Category::DevelopmentTools => "development-tools",
            Category::Email => "email",
            Category::Embedded => "embedded",
            Category::Emulators => "emulators",
            Category::Encoding => "encoding",
            Category::ExternalFfiBindings => "external-ffi-bindings",
            Category::Filesystem => "filesystems",
            Category::GameDevelopment => "game-development",
            Category::GameEngines => "game-engines",
            Category::Games => "games",
            Category::Graphics => "graphics",
            Category::Gui => "gui",
            Category::HardwareSupport => "hardware-support",
            Category::Internationalization => "internationalization",
            Category::Localization => "localization",
            Category::Mathematics => "mathematics",
            Category::MemoryManagement => "memory-management",
            Category::Multimedia => "multimedia",
            Category::NetworkProgramming => "network-programming",
            Category::NoStd => "no-std",
            Category::Os => "os",
            Category::ParserImplementations => "parser-implementations",
            Category::Parsing => "parsing",
            Category::Rendering => "rendering",
            Category::RustPatterns => "rust-patterns",
            Category::Science => "science",
            Category::Simulation => "simulation",
            Category::TemplateEngine => "template-engine",
            Category::TextEditors => "text-editors",
            Category::TextProcessing => "text-processing",
            Category::ValueFormatting => "value-formatting",
            Category::Visualization => "visualization",
            Category::Wasm => "wasm",
            Category::WebProgramming => "web-programming",
        }
    }

    /// Reads a category from its name or from one of the accepted short forms.
    pub fn from_str(input: &str) -> (parsed: Option<Category>)
        ensures
            parsed == Category::parse(input@),
    {
        if str_eq(input, "accessibility")
            || str_eq(input, "access")
            || str_eq(input, "accessible") {
            Some(Category::Accessibility)
        } else if str_eq(input, "algorithms")
            || str_eq(input, "algo")
            || str_eq(input, "algorithm")
            || str_eq(input, "algorithmic") {
            Some(Category::Algorithms)
        } else if str_eq(input, "api-bindings")
            || str_eq(input, "bindings")
            || str_eq(input, "api") {
            Some(Category::ApiBindings)
        } else if str_eq(input, "asynchronous")
            || str_eq(input, "async") {
            Some(Category::Asynchronous)
        } else if str_eq(input, "authentication")
            || str_eq(input, "auth")
            || str_eq(input, "authenticate") {
            Some(Category::Authentication)
        } else if str_eq(input, "caching")
            || str_eq(input, "cache") {
            Some(Category::Caching)
        } else if str_eq(input, "command-line-interface")
            || str_eq(input, "cli") {
            Some(Category::CommandLineInterface)
        } else if str_eq(input, "command-line-utilities")
            || str_eq(input, "util")
            || str_eq(input, "utility")
            || str_eq(input, "utilities") {
            Some(Category::CommandLineUtilities)
        } else if str_eq(input, "compilers")
            || str_eq(input, "compiler") {
            Some(Category::Compilers)
        } else if str_eq(input, "compression")
            || str_eq(input, "compress") {
            Some(Category::Compression)
        } else if str_eq(input, "computer-vision")
            || str_eq(input, "vision") {
            Some(Category::ComputerVision)
        } else if str_eq(input, "concurrency")
            || str_eq(input, "concurrent") {
            Some(Category::Concurrency)
        } else if str_eq(input, "config")
            || str_eq(input, "cfg")
            || str_eq(input, "conf") {
            Some(Category::Config)
        } else if str_eq(input, "cryptography")
            || str_eq(input, "crypto") {
            Some(Category::Cryptography)
        } else if str_eq(input, "database")
            || str_eq(input, "db") {
            Some(Category::Database)
        } else if str_eq(input, "database-implementations")
            || str_eq(input, "db-impl") {
            Some(Category::DatabaseImplementations)
        } else if str_eq(input, "data-structures")
            || str_eq(input, "struct")
            || str_eq(input, "structs")
            || str_eq(input, "structures") {
            Some(Category::DataStructures)
        } else if str_eq(input, "date-and-time")
            || str_eq(input, "date")
            || str_eq(input, "time")
            || str_eq(input, "datetime") {
            Some(Category::DateAndTime)
        } else if str_eq(input, "development-tools")
            || str_eq(input, "dev-tools")
            || str_eq(input, "tools") {
            Some(Category::DevelopmentTools)
        } else if str_eq(input, "email")
            || str_eq(input, "mail") {
            Some(Category::Email)
        } else if str_eq(input, "embedded")
            || str_eq(input, "embed") {
            Some(Category::Embedded)
        } else if str_eq(input, "emulators")
            || str_eq(input, "emulation")
            || str_eq(input, "emulate") {
            Some(Category::Emulators)
        } else if str_eq(input, "encoding")
            || str_eq(input, "encode")
            || str_eq(input, "encoders") {
            Some(Category::Encoding)
        } else if str_eq(input, "external-ffi-bindings")
            || str_eq(input, "ffi") {
            Some(Category::ExternalFfiBindings)
        } else if str_eq(input, "filesystem")
            || str_eq(input, "fs")
            || str_eq(input, "filesystems") {
            Some(Category::Filesystem)
        } else if str_eq(input, "game-development")
            || str_eq(input, "gamedev")
            || str_eq(input, "game-dev") {
            Some(Category::GameDevelopment)
        } else if str_eq(input, "game-engines")
            || str_eq(input, "game-engine")
            || str_eq(input, "engines") {
            Some(Category::GameEngines)
        } else if str_eq(input, "games")
            || str_eq(input, "game") {
            Some(Category::Games)
        } else if str_eq(input, "graphics") {
            Some(Category::Graphics)
        } else if str_eq(input, "gui")
            || str_eq(input, "ui") {
            Some(Category::Gui)
        } else if str_eq(input, "hardware-support")
            || str_eq(input, "hardware") {
            Some(Category::HardwareSupport)
        } else if str_eq(input, "internationalization")
            || str_eq(input, "i18n") {
            Some(Category::Internationalization)
        } else if str_eq(input, "localization")
            || str_eq(input, "localizations") {
            Some(Category::Localization)
        } else if str_eq(input, "mathematics")
            || str_eq(input, "maths")
            || str_eq(input, "math") {
            Some(Category::Mathematics)
        } else if str_eq(input, "memory-management")
            || str_eq(input, "memory")
            || str_eq(input, "mem") {
            Some(Category::MemoryManagement)
        } else if str_eq(input, "multimedia")
            || str_eq(input, "media") {
            Some(Category::Multimedia)
        } else if str_eq(input, "network-programming")
            || str_eq(input, "net")
            || str_eq(input, "network")
            || str_eq(input, "networking") {
            Some(Category::NetworkProgramming)
        } else if str_eq(input, "no-std")
            || str_eq(input, "nostd") {
            Some(Category::NoStd)
        } else if str_eq(input, "os")
            || str_eq(input, "operating-system") {
            Some(Category::Os)
        } else if str_eq(input, "parser-implementations")
            || str_eq(input, "parsers") {
            Some(Category::ParserImplementations)
        } else if str_eq(input, "parsing")
            || str_eq(input, "parse") {
            Some(Category::Parsing)
        } else if str_eq(input, "rendering")
            || str_eq(input, "render") {
            Some(Category::Rendering)
        } else if str_eq(input, "rust-patterns")
            || str_eq(input, "patterns") {
            Some(Category::RustPatterns)
        } else if str_eq(input, "science")
            || str_eq(input, "scientific")
            || str_eq(input, "sci") {
            Some(Category::Science)
        } else if str_eq(input, "simulation")
            || str_eq(input, "sim")
            || str_eq(input, "simulators") {
            Some(Category::Simulation)
        } else if str_eq(input, "template-engine")
            || str_eq(input, "template-engines")
            || str_eq(input, "template") {
            Some(Category::TemplateEngine)
        } else if str_eq(input, "text-editors")
            || str_eq(input, "editors") {
            Some(Category::TextEditors)
        } else if str_eq(input, "text-processing")
            || str_eq(input, "text")
            || str_eq(input, "processing") {
            Some(Category::TextProcessing)
        } else if str_eq(input, "value-formatting")
            || str_eq(input, "formatting") {
            Some(Category::ValueFormatting)
        } else if str_eq(input, "visualization")
            || str_eq(input, "visual")
            || str_eq(input, "vis")
            || str_eq(input, "visualize") {
            Some(Category::Visualization)
        } else if str_eq(input, "wasm") {
            Some(Category::Wasm)
        } else if str_eq(input, "web-programming")
            || str_eq(input, "web") {
            Some(Category::WebProgramming)
        } else {
            None
        }
    }
}
/// Every sorting scheme is read back from its own name: `parse` undoes `name`.
pub proof fn lemma_sorting_name_parses(value: Sorting)
    ensures
        Sorting::parse(value.name()) == Some(value),
{
    reveal_strlit("alpha");
    reveal_strlit("alphabet");
    reveal_strlit("alphabetic");
    reveal_strlit("alphabetical");
    reveal_strlit("downloads");
    reveal_strlit("download");
    reveal_strlit("dl");
    reveal_strlit("all-time");
    reveal_strlit("recent-downloads");
    reveal_strlit("rdl");
    reveal_strlit("new-downloads");
    reveal_strlit("recent-updates");
    reveal_strlit("new-updates");
    reveal_strlit("updates");
    reveal_strlit("update");
    reveal_strlit("rup");
    reveal_strlit("newly-added");
    reveal_strlit("new");
    reveal_strlit("newest");
    reveal_strlit("latest");
    assert("alpha"@.len() == 5);
    assert("alphabet"@.len() == 8);
    assert("alphabetic"@.len() == 10);
    assert("alphabetical"@.len() == 12);
    assert("downloads"@.len() == 9);
    assert("download"@.len() == 8);
    assert("dl"@.len() == 2);
    assert("all-time"@.len() == 8);
    assert("recent-downloads"@.len() == 16);
    assert("rdl"@.len() == 3);
    assert("new-downloads"@.len() == 13);
    assert("recent-updates"@.len() == 14);
    assert("new-updates"@.len() == 11);
    assert("updates"@.len() == 7);
    assert("update"@.len() == 6);
    assert("rup"@.len() == 3);
    assert("newly-added"@.len() == 11);
    assert("new"@.len() == 3);
    assert("newest"@.len() == 6);
    assert("latest"@.len() == 6);
    match value {
        Sorting::Alphabetical => {
        },
        Sorting::AllTimeDownloads => {
        },
        Sorting::RecentDownloads => {
        },
        Sorting::RecentUpdates => {
        },
        Sorting::NewlyAdded => {
            assert("rdl"@[0] != "new"@[0]);
            assert("rup"@[0] != "new"@[0]);
        },
    }
}

/// Every category is read back from its own name: `parse` undoes `name`.
pub proof fn lemma_category_name_parses(value: Category)
    ensures
        Category::parse(value.name()) == Some(value),
{
    reveal_strlit("accessibility");
    reveal_strlit("access");
    reveal_strlit("accessible");
    reveal_strlit("algorithms");
    reveal_strlit("algo");
    reveal_strlit("algorithm");
    reveal_strlit("algorithmic");
    reveal_strlit("api-bindings");
    reveal_strlit("bindings");
    reveal_strlit("api");
    reveal_strlit("asynchronous");
    reveal_strlit("async");
    reveal_strlit("authentication");
    reveal_strlit("auth");
    reveal_strlit("authenticate");
    reveal_strlit("caching");
    reveal_strlit("cache");
    reveal_strlit("command-line-interface");
    reveal_strlit("cli");
    reveal_strlit("command-line-utilities");
    reveal_strlit("util");
    reveal_strlit("utility");
    reveal_strlit("utilities");
    reveal_strlit("compilers");
    reveal_strlit("compiler");
    reveal_strlit("compression");
    reveal_strlit("compress");
    reveal_strlit("computer-vision");
    reveal_strlit("vision");
    reveal_strlit("concurrency");
    reveal_strlit("concurrent");
    reveal_strlit("config");
    reveal_strlit("cfg");
    reveal_strlit("conf");
    reveal_strlit("cryptography");
    reveal_strlit("crypto");
    reveal_strlit("database");
    reveal_strlit("db");
    reveal_strlit("database-implementations");
    reveal_strlit("db-impl");
    reveal_strlit("data-structures");
    reveal_strlit("struct");
    reveal_strlit("structs");
    reveal_strlit("structures");
    reveal_strlit("date-and-time");
    reveal_strlit("date");
    reveal_strlit("time");
    reveal_strlit("datetime");
    reveal_strlit("development-tools");
    reveal_strlit("dev-tools");
    reveal_strlit("tools");
    reveal_strlit("email");
    reveal_strlit("mail");
    reveal_strlit("embedded");
    reveal_strlit("embed");
    reveal_strlit("emulators");
    reveal_strlit("emulation");
    reveal_strlit("emulate");
    reveal_strlit("encoding");
    reveal_strlit("encode");
    reveal_strlit("encoders");
    reveal_strlit("external-ffi-bindings");
    reveal_strlit("ffi");
    reveal_strlit("filesystem");
    reveal_strlit("fs");
    reveal_strlit("filesystems");
    reveal_strlit("game-development");
    reveal_strlit("gamedev");
    reveal_strlit("game-dev");
    reveal_strlit("game-engines");
    reveal_strlit("game-engine");
    reveal_strlit("engines");
    reveal_strlit("games");
    reveal_strlit("game");
    reveal_strlit("graphics");
    reveal_strlit("gui");
    reveal_strlit("ui");
    reveal_strlit("hardware-support");
    reveal_strlit("hardware");
    reveal_strlit("internationalization");
    reveal_strlit("i18n");
    reveal_strlit("localization");
    reveal_strlit("localizations");
    reveal_strlit("mathematics");
    reveal_strlit("maths");
    reveal_strlit("math");
    reveal_strlit("memory-management");
    reveal_strlit("memory");
    reveal_strlit("mem");
    reveal_strlit("multimedia");
    reveal_strlit("media");
    reveal_strlit("network-programming");
    reveal_strlit("net");
    reveal_strlit("network");
    reveal_strlit("networking");
    reveal_strlit("no-std");
    reveal_strlit("nostd");
    reveal_strlit("os");
    reveal_strlit("operating-system");
    reveal_strlit("parser-implementations");
    reveal_strlit("parsers");
    reveal_strlit("parsing");
    reveal_strlit("parse");
    reveal_strlit("rendering");
    reveal_strlit("render");
    reveal_strlit("rust-patterns");
    reveal_strlit("patterns");
    reveal_strlit("science");
    reveal_strlit("scientific");
    reveal_strlit("sci");
    reveal_strlit("simulation");
    reveal_strlit("sim");
    reveal_strlit("simulators");
    reveal_strlit("template-engine");
    reveal_strlit("template-engines");
    reveal_strlit("template");
    reveal_strlit("text-editors");
    reveal_strlit("editors");
    reveal_strlit("text-processing");
    reveal_strlit("text");
    reveal_strlit("processing");
    reveal_strlit("value-formatting");
    reveal_strlit("formatting");
    reveal_strlit("visualization");
    reveal_strlit("visual");
    reveal_strlit("vis");
    reveal_strlit("visualize");
    reveal_strlit("wasm");
    reveal_strlit("web-programming");
    reveal_strlit("web");
    assert("accessibility"@.len() == 13);
    assert("access"@.len() == 6);
    assert("accessible"@.len() == 10);
    assert("algorithms"@.len() == 10);
    assert("algo"@.len() == 4);
    assert("algorithm"@.len() == 9);
    assert("algorithmic"@.len() == 11);
    assert("api-bindings"@.len() == 12);
    assert("bindings"@.len() == 8);
    assert("api"@.len() == 3);
    assert("asynchronous"@.len() == 12);
    assert("async"@.len() == 5);
    assert("authentication"@.len() == 14);
    assert("auth"@.len() == 4);
    assert("authenticate"@.len() == 12);
    assert("caching"@.len() == 7);
    assert("cache"@.len() == 5);
    assert("command-line-interface"@.len() == 22);
    assert("cli"@.len() == 3);
    assert("command-line-utilities"@.len() == 22);
    assert("util"@.len() == 4);
    assert("utility"@.len() == 7);
    assert("utilities"@.len() == 9);
    assert("compilers"@.len() == 9);
    assert("compiler"@.len() == 8);
    assert("compression"@.len() == 11);
    assert("compress"@.len() == 8);
    assert("computer-vision"@.len() == 15);
    assert("vision"@.len() == 6);
    assert("concurrency"@.len() == 11);
    assert("concurrent"@.len() == 10);
    assert("config"@.len() == 6);
    assert("cfg"@.len() == 3);
    assert("conf"@.len() == 4);
    assert("cryptography"@.len() == 12);
    assert("crypto"@.len() == 6);
    assert("database"@.len() == 8);
    assert("db"@.len() == 2);
    assert("database-implementations"@.len() == 24);
    assert("db-impl"@.len() == 7);
    assert("data-structures"@.len() == 15);
    assert("struct"@.len() == 6);
    assert("structs"@.len() == 7);
    assert("structures"@.len() == 10);
    assert("date-and-time"@.len() == 13);
    assert("date"@.len() == 4);
    assert("time"@.len() == 4);
    assert("datetime"@.len() == 8);
    assert("development-tools"@.len() == 17);
    assert("dev-tools"@.len() == 9);
    assert("tools"@.len() == 5);
    assert("email"@.len() == 5);
    assert("mail"@.len() == 4);
    assert("embedded"@.len() == 8);
    assert("embed"@.len() == 5);
    assert("emulators"@.len() == 9);
    assert("emulation"@.len() == 9);
    assert("emulate"@.len() == 7);
    assert("encoding"@.len() == 8);
    assert("encode"@.len() == 6);
    assert("encoders"@.len() == 8);
    assert("external-ffi-bindings"@.len() == 21);
    assert("ffi"@.len() == 3);
    assert("filesystem"@.len() == 10);
    assert("fs"@.len() == 2);
    assert("filesystems"@.len() == 11);
    assert("game-development"@.len() == 16);
    assert("gamedev"@.len() == 7);
    assert("game-dev"@.len() == 8);
    assert("game-engines"@.len() == 12);
    assert("game-engine"@.len() == 11);
    assert("engines"@.len() == 7);
    assert("games"@.len() == 5);
    assert("game"@.len() == 4);
    assert("graphics"@.len() == 8);
    assert("gui"@.len() == 3);
    assert("ui"@.len() == 2);
    assert("hardware-support"@.len() == 16);
    assert("hardware"@.len() == 8);
    assert("internationalization"@.len() == 20);
    assert("i18n"@.len() == 4);
    assert("localization"@.len() == 12);
    assert("localizations"@.len() == 13);
    assert("mathematics"@.len() == 11);
    assert("maths"@.len() == 5);
    assert("math"@.len() == 4);
    assert("memory-management"@.len() == 17);
    assert("memory"@.len() == 6);
    assert("mem"@.len() == 3);
    assert("multimedia"@.len() == 10);
    assert("media"@.len() == 5);
    assert("network-programming"@.len() == 19);
    assert("net"@.len() == 3);
    assert("network"@.len() == 7);
    assert("networking"@.len() == 10);
    assert("no-std"@.len() == 6);
    assert("nostd"@.len() == 5);
    assert("os"@.len() == 2);
    assert("operating-system"@.len() == 16);
    assert("parser-implementations"@.len() == 22);
    assert("parsers"@.len() == 7);
    assert("parsing"@.len() == 7);
    assert("parse"@.len() == 5);
    assert("rendering"@.len() == 9);
    assert("render"@.len() == 6);
    assert("rust-patterns"@.len() == 13);
    assert("patterns"@.len() == 8);
    assert("science"@.len() == 7);
    assert("scientific"@.len() == 10);
    assert("sci"@.len() == 3);
    assert("simulation"@.len() == 10);
    assert("sim"@.len() == 3);
    assert("simulators"@.len() == 10);
    assert("template-engine"@.len() == 15);
    assert("template-engines"@.len() == 16);
    assert("template"@.len() == 8);
    assert("text-editors"@.len() == 12);
    assert("editors"@.len() == 7);
    assert("text-processing"@.len() == 15);
    assert("text"@.len() == 4);
    assert("processing"@.len() == 10);
    assert("value-formatting"@.len() == 16);
    assert("formatting"@.len() == 10);
    assert("visualization"@.len() == 13);
    assert("visual"@.len() == 6);
    assert("vis"@.len() == 3);
    assert("visualize"@.len() == 9);
    assert("wasm"@.len() == 4);
    assert("web-programming"@.len() == 15);
    assert("web"@.len() == 3);
    match value {
        Category::Accessibility => {
        },
        Category::Algorithms => {
            assert("accessible"@[1] != "algorithms"@[1]);
        },
        Category::ApiBindings => {
        },
        Category::Asynchronous => {
            assert("api-bindings"@[1] != "asynchronous"@[1]);
        },
        Category::Authentication => {
        },
        Category::Caching => {
        },
        Category::CommandLineInterface => {
        },
        Category::CommandLineUtilities => {
            assert("command-line-interface"@[13] != "command-line-utilities"@[13]);
        },
        Category::Compilers => {
            assert("algorithm"@[0] != "compilers"@[0]);
            assert("utilities"@[0] != "compilers"@[0]);
        },
        Category::Compression => {
            assert("algorithmic"@[0] != "compression"@[0]);
        },
        Category::ComputerVision => {
        },
        Category::Concurrency => {
            assert("algorithmic"@[0] != "concurrency"@[0]);
            assert("compression"@[2] != "concurrency"@[2]);
        },
        Category::Config => {
            assert("access"@[0] != "config"@[0]);
            assert("vision"@[0] != "config"@[0]);
        },
        Category::Cryptography => {
            assert("api-bindings"@[0] != "cryptography"@[0]);
            assert("asynchronous"@[0] != "cryptography"@[0]);
            assert("authenticate"@[0] != "cryptography"@[0]);
        },
        Category::Database => {
            assert("bindings"@[0] != "database"@[0]);
            assert("compiler"@[0] != "database"@[0]);
            assert("compress"@[0] != "database"@[0]);
        },
        Category::DatabaseImplementations => {
        },
        Category::DataStructures => {
            assert("computer-vision"@[0] != "data-structures"@[0]);
        },
        Category::DateAndTime => {
            assert("accessibility"@[0] != "date-and-time"@[0]);
        },
        Category::DevelopmentTools => {
        },
        Category::Email => {
            assert("async"@[0] != "email"@[0]);
            assert("cache"@[0] != "email"@[0]);
            assert("tools"@[0] != "email"@[0]);
        },
        Category::Embedded => {
            assert("bindings"@[0] != "embedded"@[0]);
            assert("compiler"@[0] != "embedded"@[0]);
            assert("compress"@[0] != "embedded"@[0]);
            assert("database"@[0] != "embedded"@[0]);
            assert("datetime"@[0] != "embedded"@[0]);
        },
        Category::Emulators => {
            assert("algorithm"@[0] != "emulators"@[0]);
            assert("utilities"@[0] != "emulators"@[0]);
            assert("compilers"@[0] != "emulators"@[0]);
            assert("dev-tools"@[0] != "emulators"@[0]);
        },
        Category::Encoding => {
            assert("bindings"@[0] != "encoding"@[0]);
            assert("compiler"@[0] != "encoding"@[0]);
            assert("compress"@[0] != "encoding"@[0]);
            assert("database"@[0] != "encoding"@[0]);
            assert("datetime"@[0] != "encoding"@[0]);
            assert("embedded"@[1] != "encoding"@[1]);
        },
        Category::ExternalFfiBindings => {
        },
        Category::Filesystem => {
            assert("algorithmic"@[0] != "filesystems"@[0]);
            assert("compression"@[0] != "filesystems"@[0]);
            assert("concurrency"@[0] != "filesystems"@[0]);
        },
        Category::GameDevelopment => {
        },
        Category::GameEngines => {
            assert("api-bindings"@[0] != "game-engines"@[0]);
            assert("asynchronous"@[0] != "game-engines"@[0]);
            assert("authenticate"@[0] != "game-engines"@[0]);
            assert("cryptography"@[0] != "game-engines"@[0]);
        },
        Category::Games => {
            assert("async"@[0] != "games"@[0]);
            assert("cache"@[0] != "games"@[0]);
            assert("tools"@[0] != "games"@[0]);
            assert("email"@[0] != "games"@[0]);
            assert("embed"@[0] != "games"@[0]);
        },
        Category::Graphics => {
            assert("bindings"@[0] != "graphics"@[0]);
            assert("compiler"@[0] != "graphics"@[0]);
            assert("compress"@[0] != "graphics"@[0]);
            assert("database"@[0] != "graphics"@[0]);
            assert("datetime"@[0] != "graphics"@[0]);
            assert("embedded"@[0] != "graphics"@[0]);
            assert("encoding"@[0] != "graphics"@[0]);
            assert("encoders"@[0] != "graphics"@[0]);
            assert("game-dev"@[1] != "graphics"@[1]);
        },
        Category::Gui => {
            assert("api"@[0] != "gui"@[0]);
            assert("cli"@[0] != "gui"@[0]);
            assert("cfg"@[0] != "gui"@[0]);
            assert("ffi"@[0] != "gui"@[0]);
        },
        Category::HardwareSupport => {
            assert("game-development"@[0] != "hardware-support"@[0]);
        },
        Category::Internationalization => {
        },
        Category::Localization => {
            assert("api-bindings"@[0] != "localization"@[0]);
            assert("asynchronous"@[0] != "localization"@[0]);
            assert("authenticate"@[0] != "localization"@[0]);
            assert("cryptography"@[0] != "localization"@[0]);
            assert("game-engines"@[0] != "localization"@[0]);
        },
        Category::Mathematics => {
            assert("algorithmic"@[0] != "mathematics"@[0]);
            assert("compression"@[0] != "mathematics"@[0]);
            assert("concurrency"@[0] != "mathematics"@[0]);
            assert("filesystems"@[0] != "mathematics"@[0]);
            assert("game-engine"@[0] != "mathematics"@[0]);
        },
        Category::MemoryManagement => {
            assert("development-tools"@[0] != "memory-management"@[0]);
        },
        Category::Multimedia => {
            assert("accessible"@[0] != "multimedia"@[0]);
            assert("algorithms"@[0] != "multimedia"@[0]);
            assert("concurrent"@[0] != "multimedia"@[0]);
            assert("structures"@[0] != "multimedia"@[0]);
            assert("filesystem"@[0] != "multimedia"@[0]);
        },
        Category::NetworkProgramming => {
        },
        Category::NoStd => {
            assert("access"@[0] != "no-std"@[0]);
            assert("vision"@[0] != "no-std"@[0]);
            assert("config"@[0] != "no-std"@[0]);
            assert("crypto"@[0] != "no-std"@[0]);
            assert("struct"@[0] != "no-std"@[0]);
            assert("encode"@[0] != "no-std"@[0]);
            assert("memory"@[0] != "no-std"@[0]);
        },
        Category::Os => {
            assert("db"@[0] != "os"@[0]);
            assert("fs"@[0] != "os"@[0]);
            assert("ui"@[0] != "os"@[0]);
        },
        Category::ParserImplementations => {
            assert("command-line-interface"@[0] != "parser-implementations"@[0]);
            assert("command-line-utilities"@[0] != "parser-implementations"@[0]);
        },
        Category::Parsing => {
            assert("caching"@[0] != "parsing"@[0]);
            assert("utility"@[0] != "parsing"@[0]);
            assert("db-impl"@[0] != "parsing"@[0]);
            assert("structs"@[0] != "parsing"@[0]);
            assert("emulate"@[0] != "parsing"@[0]);
            assert("gamedev"@[0] != "parsing"@[0]);
            assert("engines"@[0] != "parsing"@[0]);
            assert("network"@[0] != "parsing"@[0]);
            assert("parsers"@[4] != "parsing"@[4]);
        },
        Category::Rendering => {
            assert("algorithm"@[0] != "rendering"@[0]);
            assert("utilities"@[0] != "rendering"@[0]);
            assert("compilers"@[0] != "rendering"@[0]);
            assert("dev-tools"@[0] != "rendering"@[0]);
            assert("emulators"@[0] != "rendering"@[0]);
            assert("emulation"@[0] != "rendering"@[0]);
        },
        Category::RustPatterns => {
            assert("accessibility"@[0] != "rust-patterns"@[0]);
            assert("date-and-time"@[0] != "rust-patterns"@[0]);
            assert("localizations"@[0] != "rust-patterns"@[0]);
        },
        Category::Science => {
            assert("caching"@[0] != "science"@[0]);
            assert("utility"@[0] != "science"@[0]);
            assert("db-impl"@[0] != "science"@[0]);
            assert("structs"@[1] != "science"@[1]);
            assert("emulate"@[0] != "science"@[0]);
            assert("gamedev"@[0] != "science"@[0]);
            assert("engines"@[0] != "science"@[0]);
            assert("network"@[0] != "science"@[0]);
            assert("parsers"@[0] != "science"@[0]);
            assert("parsing"@[0] != "science"@[0]);
        },
        Category::Simulation => {
            assert("accessible"@[0] != "simulation"@[0]);
            assert("algorithms"@[0] != "simulation"@[0]);
            assert("concurrent"@[0] != "simulation"@[0]);
            assert("structures"@[1] != "simulation"@[1]);
            assert("filesystem"@[0] != "simulation"@[0]);
            assert("multimedia"@[0] != "simulation"@[0]);
            assert("networking"@[0] != "simulation"@[0]);
            assert("scientific"@[1] != "simulation"@[1]);
        },
        Category::TemplateEngine => {
            assert("computer-vision"@[0] != "template-engine"@[0]);
            assert("data-structures"@[0] != "template-engine"@[0]);
        },
        Category::TextEditors => {
            assert("api-bindings"@[0] != "text-editors"@[0]);
            assert("asynchronous"@[0] != "text-editors"@[0]);
            assert("authenticate"@[0] != "text-editors"@[0]);
            assert("cryptography"@[0] != "text-editors"@[0]);
            assert("game-engines"@[0] != "text-editors"@[0]);
            assert("localization"@[0] != "text-editors"@[0]);
        },
        Category::TextProcessing => {
            assert("computer-vision"@[0] != "text-processing"@[0]);
            assert("data-structures"@[0] != "text-processing"@[0]);
            assert("template-engine"@[2] != "text-processing"@[2]);
        },
        Category::ValueFormatting => {
            assert("game-development"@[0] != "value-formatting"@[0]);
            assert("hardware-support"@[0] != "value-formatting"@[0]);
            assert("operating-system"@[0] != "value-formatting"@[0]);
            assert("template-engines"@[0] != "value-formatting"@[0]);
        },
        Category::Visualization => {
            assert("accessibility"@[0] != "visualization"@[0]);
            assert("date-and-time"@[0] != "visualization"@[0]);
            assert("localizations"@[0] != "visualization"@[0]);
            assert("rust-patterns"@[0] != "visualization"@[0]);
        },
        Category::Wasm => {
            assert("algo"@[0] != "wasm"@[0]);
            assert("auth"@[0] != "wasm"@[0]);
            assert("util"@[0] != "wasm"@[0]);
            assert("conf"@[0] != "wasm"@[0]);
            assert("date"@[0] != "wasm"@[0]);
            assert("time"@[0] != "wasm"@[0]);
            assert("mail"@[0] != "wasm"@[0]);
            assert("game"@[0] != "wasm"@[0]);
            assert("i18n"@[0] != "wasm"@[0]);
            assert("math"@[0] != "wasm"@[0]);
            assert("text"@[0] != "wasm"@[0]);
        },
        Category::WebProgramming => {
            assert("computer-vision"@[0] != "web-programming"@[0]);
            assert("data-structures"@[0] != "web-programming"@[0]);
            assert("template-engine"@[0] != "web-programming"@[0]);
            assert("text-processing"@[0] != "web-programming"@[0]);
        },
    }
}

} // verus!

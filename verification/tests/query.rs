use consecrates::query::{Category, Query, Sorting};

#[test]
fn sorting_names() {
    assert_eq!(Sorting::Alphabetical.to_str(), "alpha");
    assert_eq!(Sorting::AllTimeDownloads.to_str(), "downloads");
    assert_eq!(Sorting::RecentDownloads.to_str(), "recent-downloads");
    assert_eq!(Sorting::RecentUpdates.to_str(), "recent-updates");
    assert_eq!(Sorting::NewlyAdded.to_str(), "new");
}

#[test]
fn sorting_is_read_from_names_and_short_forms() {
    assert_eq!(Sorting::from_str("alpha"), Some(Sorting::Alphabetical));
    assert_eq!(Sorting::from_str("alphabet"), Some(Sorting::Alphabetical));
    assert_eq!(Sorting::from_str("alphabetic"), Some(Sorting::Alphabetical));
    assert_eq!(Sorting::from_str("alphabetical"), Some(Sorting::Alphabetical));
    assert_eq!(Sorting::from_str("downloads"), Some(Sorting::AllTimeDownloads));
    assert_eq!(Sorting::from_str("download"), Some(Sorting::AllTimeDownloads));
    assert_eq!(Sorting::from_str("dl"), Some(Sorting::AllTimeDownloads));
    assert_eq!(Sorting::from_str("all-time"), Some(Sorting::AllTimeDownloads));
    assert_eq!(Sorting::from_str("recent-downloads"), Some(Sorting::RecentDownloads));
    assert_eq!(Sorting::from_str("rdl"), Some(Sorting::RecentDownloads));
    assert_eq!(Sorting::from_str("new-downloads"), Some(Sorting::RecentDownloads));
    assert_eq!(Sorting::from_str("recent-updates"), Some(Sorting::RecentUpdates));
    assert_eq!(Sorting::from_str("new-updates"), Some(Sorting::RecentUpdates));
    assert_eq!(Sorting::from_str("updates"), Some(Sorting::RecentUpdates));
    assert_eq!(Sorting::from_str("update"), Some(Sorting::RecentUpdates));
    assert_eq!(Sorting::from_str("rup"), Some(Sorting::RecentUpdates));
    assert_eq!(Sorting::from_str("newly-added"), Some(Sorting::NewlyAdded));
    assert_eq!(Sorting::from_str("new"), Some(Sorting::NewlyAdded));
    assert_eq!(Sorting::from_str("newest"), Some(Sorting::NewlyAdded));
    assert_eq!(Sorting::from_str("latest"), Some(Sorting::NewlyAdded));
}

#[test]
fn sorting_is_not_read_from_anything_else() {
    assert_eq!(Sorting::from_str(""), None);
    assert_eq!(Sorting::from_str("Alpha"), None);
    assert_eq!(Sorting::from_str("alpha "), None);
    assert_eq!(Sorting::from_str("alph"), None);
    assert_eq!(Sorting::from_str("recent"), None);
}

#[test]
fn sorting_is_read_back_from_its_name() {
    let all = [
        Sorting::Alphabetical,
        Sorting::AllTimeDownloads,
        Sorting::RecentDownloads,
        Sorting::RecentUpdates,
        Sorting::NewlyAdded,
    ];
    for sorting in all {
        assert_eq!(Sorting::from_str(sorting.to_str()), Some(sorting));
    }
}

#[test]
fn category_names() {
    assert_eq!(Category::Accessibility.to_str(), "accessibility");
    assert_eq!(Category::Algorithms.to_str(), "algorithms");
    assert_eq!(Category::ApiBindings.to_str(), "api-bindings");
    assert_eq!(Category::Asynchronous.to_str(), "asynchronous");
    assert_eq!(Category::Authentication.to_str(), "authentication");
    assert_eq!(Category::Caching.to_str(), "caching");
    assert_eq!(Category::CommandLineInterface.to_str(), "command-line-interface");
    assert_eq!(Category::CommandLineUtilities.to_str(), "command-line-utilities");
    assert_eq!(Category::Compilers.to_str(), "compilers");
    assert_eq!(Category::Compression.to_str(), "compression");
    assert_eq!(Category::ComputerVision.to_str(), "computer-vision");
    assert_eq!(Category::Concurrency.to_str(), "concurrency");
    assert_eq!(Category::Config.to_str(), "config");
    assert_eq!(Category::Cryptography.to_str(), "cryptography");
    assert_eq!(Category::Database.to_str(), "database");
    assert_eq!(Category::DatabaseImplementations.to_str(), "database-implementations");
    assert_eq!(Category::DataStructures.to_str(), "data-structures");
    assert_eq!(Category::DateAndTime.to_str(), "date-and-time");
    assert_eq!(Category::DevelopmentTools.to_str(), "development-tools");
    assert_eq!(Category::Email.to_str(), "email");
    assert_eq!(Category::Embedded.to_str(), "embedded");
    assert_eq!(Category::Emulators.to_str(), "emulators");
    assert_eq!(Category::Encoding.to_str(), "encoding");
    assert_eq!(Category::ExternalFfiBindings.to_str(), "external-ffi-bindings");
    assert_eq!(Category::Filesystem.to_str(), "filesystems");
    assert_eq!(Category::GameDevelopment.to_str(), "game-development");
    assert_eq!(Category::GameEngines.to_str(), "game-engines");
    assert_eq!(Category::Games.to_str(), "games");
    assert_eq!(Category::Graphics.to_str(), "graphics");
    assert_eq!(Category::Gui.to_str(), "gui");
    assert_eq!(Category::HardwareSupport.to_str(), "hardware-support");
    assert_eq!(Category::Internationalization.to_str(), "internationalization");
    assert_eq!(Category::Localization.to_str(), "localization");
    assert_eq!(Category::Mathematics.to_str(), "mathematics");
    assert_eq!(Category::MemoryManagement.to_str(), "memory-management");
    assert_eq!(Category::Multimedia.to_str(), "multimedia");
    assert_eq!(Category::NetworkProgramming.to_str(), "network-programming");
    assert_eq!(Category::NoStd.to_str(), "no-std");
    assert_eq!(Category::Os.to_str(), "os");
    assert_eq!(Category::ParserImplementations.to_str(), "parser-implementations");
    assert_eq!(Category::Parsing.to_str(), "parsing");
    assert_eq!(Category::Rendering.to_str(), "rendering");
    assert_eq!(Category::RustPatterns.to_str(), "rust-patterns");
    assert_eq!(Category::Science.to_str(), "science");
    assert_eq!(Category::Simulation.to_str(), "simulation");
    assert_eq!(Category::TemplateEngine.to_str(), "template-engine");
    assert_eq!(Category::TextEditors.to_str(), "text-editors");
    assert_eq!(Category::TextProcessing.to_str(), "text-processing");
    assert_eq!(Category::ValueFormatting.to_str(), "value-formatting");
    assert_eq!(Category::Visualization.to_str(), "visualization");
    assert_eq!(Category::Wasm.to_str(), "wasm");
    assert_eq!(Category::WebProgramming.to_str(), "web-programming");
}

#[test]
fn category_is_read_from_names_and_short_forms() {
    assert_eq!(Category::from_str("accessibility"), Some(Category::Accessibility));
    assert_eq!(Category::from_str("access"), Some(Category::Accessibility));
    assert_eq!(Category::from_str("accessible"), Some(Category::Accessibility));
    assert_eq!(Category::from_str("algorithms"), Some(Category::Algorithms));
    assert_eq!(Category::from_str("algo"), Some(Category::Algorithms));
    assert_eq!(Category::from_str("algorithm"), Some(Category::Algorithms));
    assert_eq!(Category::from_str("algorithmic"), Some(Category::Algorithms));
    assert_eq!(Category::from_str("api-bindings"), Some(Category::ApiBindings));
    assert_eq!(Category::from_str("bindings"), Some(Category::ApiBindings));
    assert_eq!(Category::from_str("api"), Some(Category::ApiBindings));
    assert_eq!(Category::from_str("asynchronous"), Some(Category::Asynchronous));
    assert_eq!(Category::from_str("async"), Some(Category::Asynchronous));
    assert_eq!(Category::from_str("authentication"), Some(Category::Authentication));
    assert_eq!(Category::from_str("auth"), Some(Category::Authentication));
    assert_eq!(Category::from_str("authenticate"), Some(Category::Authentication));
    assert_eq!(Category::from_str("caching"), Some(Category::Caching));
    assert_eq!(Category::from_str("cache"), Some(Category::Caching));
    assert_eq!(Category::from_str("command-line-interface"), Some(Category::CommandLineInterface));
    assert_eq!(Category::from_str("cli"), Some(Category::CommandLineInterface));
    assert_eq!(Category::from_str("command-line-utilities"), Some(Category::CommandLineUtilities));
    assert_eq!(Category::from_str("util"), Some(Category::CommandLineUtilities));
    assert_eq!(Category::from_str("utility"), Some(Category::CommandLineUtilities));
    assert_eq!(Category::from_str("utilities"), Some(Category::CommandLineUtilities));
    assert_eq!(Category::from_str("compilers"), Some(Category::Compilers));
    assert_eq!(Category::from_str("compiler"), Some(Category::Compilers));
    assert_eq!(Category::from_str("compression"), Some(Category::Compression));
    assert_eq!(Category::from_str("compress"), Some(Category::Compression));
    assert_eq!(Category::from_str("computer-vision"), Some(Category::ComputerVision));
    assert_eq!(Category::from_str("vision"), Some(Category::ComputerVision));
    assert_eq!(Category::from_str("concurrency"), Some(Category::Concurrency));
    assert_eq!(Category::from_str("concurrent"), Some(Category::Concurrency));
    assert_eq!(Category::from_str("config"), Some(Category::Config));
    assert_eq!(Category::from_str("cfg"), Some(Category::Config));
    assert_eq!(Category::from_str("conf"), Some(Category::Config));
    assert_eq!(Category::from_str("cryptography"), Some(Category::Cryptography));
    assert_eq!(Category::from_str("crypto"), Some(Category::Cryptography));
    assert_eq!(Category::from_str("database"), Some(Category::Database));
    assert_eq!(Category::from_str("db"), Some(Category::Database));
    assert_eq!(Category::from_str("database-implementations"), Some(Category::DatabaseImplementations));
    assert_eq!(Category::from_str("db-impl"), Some(Category::DatabaseImplementations));
    assert_eq!(Category::from_str("data-structures"), Some(Category::DataStructures));
    assert_eq!(Category::from_str("struct"), Some(Category::DataStructures));
    assert_eq!(Category::from_str("structs"), Some(Category::DataStructures));
    assert_eq!(Category::from_str("structures"), Some(Category::DataStructures));
    assert_eq!(Category::from_str("date-and-time"), Some(Category::DateAndTime));
    assert_eq!(Category::from_str("date"), Some(Category::DateAndTime));
    assert_eq!(Category::from_str("time"), Some(Category::DateAndTime));
    assert_eq!(Category::from_str("datetime"), Some(Category::DateAndTime));
    assert_eq!(Category::from_str("development-tools"), Some(Category::DevelopmentTools));
    assert_eq!(Category::from_str("dev-tools"), Some(Category::DevelopmentTools));
    assert_eq!(Category::from_str("tools"), Some(Category::DevelopmentTools));
    assert_eq!(Category::from_str("email"), Some(Category::Email));
    assert_eq!(Category::from_str("mail"), Some(Category::Email));
    assert_eq!(Category::from_str("embedded"), Some(Category::Embedded));
    assert_eq!(Category::from_str("embed"), Some(Category::Embedded));
    assert_eq!(Category::from_str("emulators"), Some(Category::Emulators));
    assert_eq!(Category::from_str("emulation"), Some(Category::Emulators));
    assert_eq!(Category::from_str("emulate"), Some(Category::Emulators));
    assert_eq!(Category::from_str("encoding"), Some(Category::Encoding));
    assert_eq!(Category::from_str("encode"), Some(Category::Encoding));
    assert_eq!(Category::from_str("encoders"), Some(Category::Encoding));
    assert_eq!(Category::from_str("external-ffi-bindings"), Some(Category::ExternalFfiBindings));
    assert_eq!(Category::from_str("ffi"), Some(Category::ExternalFfiBindings));
    assert_eq!(Category::from_str("filesystem"), Some(Category::Filesystem));
    assert_eq!(Category::from_str("fs"), Some(Category::Filesystem));
    assert_eq!(Category::from_str("filesystems"), Some(Category::Filesystem));
    assert_eq!(Category::from_str("game-development"), Some(Category::GameDevelopment));
    assert_eq!(Category::from_str("gamedev"), Some(Category::GameDevelopment));
    assert_eq!(Category::from_str("game-dev"), Some(Category::GameDevelopment));
    assert_eq!(Category::from_str("game-engines"), Some(Category::GameEngines));
    assert_eq!(Category::from_str("game-engine"), Some(Category::GameEngines));
    assert_eq!(Category::from_str("engines"), Some(Category::GameEngines));
    assert_eq!(Category::from_str("games"), Some(Category::Games));
    assert_eq!(Category::from_str("game"), Some(Category::Games));
    assert_eq!(Category::from_str("graphics"), Some(Category::Graphics));
    assert_eq!(Category::from_str("gui"), Some(Category::Gui));
    assert_eq!(Category::from_str("ui"), Some(Category::Gui));
    assert_eq!(Category::from_str("hardware-support"), Some(Category::HardwareSupport));
    assert_eq!(Category::from_str("hardware"), Some(Category::HardwareSupport));
    assert_eq!(Category::from_str("internationalization"), Some(Category::Internationalization));
    assert_eq!(Category::from_str("i18n"), Some(Category::Internationalization));
    assert_eq!(Category::from_str("localization"), Some(Category::Localization));
    assert_eq!(Category::from_str("localizations"), Some(Category::Localization));
    assert_eq!(Category::from_str("mathematics"), Some(Category::Mathematics));
    assert_eq!(Category::from_str("maths"), Some(Category::Mathematics));
    assert_eq!(Category::from_str("math"), Some(Category::Mathematics));
    assert_eq!(Category::from_str("memory-management"), Some(Category::MemoryManagement));
    assert_eq!(Category::from_str("memory"), Some(Category::MemoryManagement));
    assert_eq!(Category::from_str("mem"), Some(Category::MemoryManagement));
    assert_eq!(Category::from_str("multimedia"), Some(Category::Multimedia));
    assert_eq!(Category::from_str("media"), Some(Category::Multimedia));
    assert_eq!(Category::from_str("network-programming"), Some(Category::NetworkProgramming));
    assert_eq!(Category::from_str("net"), Some(Category::NetworkProgramming));
    assert_eq!(Category::from_str("network"), Some(Category::NetworkProgramming));
    assert_eq!(Category::from_str("networking"), Some(Category::NetworkProgramming));
    assert_eq!(Category::from_str("no-std"), Some(Category::NoStd));
    assert_eq!(Category::from_str("nostd"), Some(Category::NoStd));
    assert_eq!(Category::from_str("os"), Some(Category::Os));
    assert_eq!(Category::from_str("operating-system"), Some(Category::Os));
    assert_eq!(Category::from_str("parser-implementations"), Some(Category::ParserImplementations));
    assert_eq!(Category::from_str("parsers"), Some(Category::ParserImplementations));
    assert_eq!(Category::from_str("parsing"), Some(Category::Parsing));
    assert_eq!(Category::from_str("parse"), Some(Category::Parsing));
    assert_eq!(Category::from_str("rendering"), Some(Category::Rendering));
    assert_eq!(Category::from_str("render"), Some(Category::Rendering));
    assert_eq!(Category::from_str("rust-patterns"), Some(Category::RustPatterns));
    assert_eq!(Category::from_str("patterns"), Some(Category::RustPatterns));
    assert_eq!(Category::from_str("science"), Some(Category::Science));
    assert_eq!(Category::from_str("scientific"), Some(Category::Science));
    assert_eq!(Category::from_str("sci"), Some(Category::Science));
    assert_eq!(Category::from_str("simulation"), Some(Category::Simulation));
    assert_eq!(Category::from_str("sim"), Some(Category::Simulation));
    assert_eq!(Category::from_str("simulators"), Some(Category::Simulation));
    assert_eq!(Category::from_str("template-engine"), Some(Category::TemplateEngine));
    assert_eq!(Category::from_str("template-engines"), Some(Category::TemplateEngine));
    assert_eq!(Category::from_str("template"), Some(Category::TemplateEngine));
    assert_eq!(Category::from_str("text-editors"), Some(Category::TextEditors));
    assert_eq!(Category::from_str("editors"), Some(Category::TextEditors));
    assert_eq!(Category::from_str("text-processing"), Some(Category::TextProcessing));
    assert_eq!(Category::from_str("text"), Some(Category::TextProcessing));
    assert_eq!(Category::from_str("processing"), Some(Category::TextProcessing));
    assert_eq!(Category::from_str("value-formatting"), Some(Category::ValueFormatting));
    assert_eq!(Category::from_str("formatting"), Some(Category::ValueFormatting));
    assert_eq!(Category::from_str("visualization"), Some(Category::Visualization));
    assert_eq!(Category::from_str("visual"), Some(Category::Visualization));
    assert_eq!(Category::from_str("vis"), Some(Category::Visualization));
    assert_eq!(Category::from_str("visualize"), Some(Category::Visualization));
    assert_eq!(Category::from_str("wasm"), Some(Category::Wasm));
    assert_eq!(Category::from_str("web-programming"), Some(Category::WebProgramming));
    assert_eq!(Category::from_str("web"), Some(Category::WebProgramming));
}

#[test]
fn category_is_not_read_from_anything_else() {
    assert_eq!(Category::from_str(""), None);
    assert_eq!(Category::from_str("Web"), None);
    assert_eq!(Category::from_str("web-"), None);
    assert_eq!(Category::from_str("we"), None);
    assert_eq!(Category::from_str("web programming"), None);
}

#[test]
fn category_is_read_back_from_its_name() {
    let all = [
        Category::Accessibility,
        Category::Algorithms,
        Category::ApiBindings,
        Category::Asynchronous,
        Category::Authentication,
        Category::Caching,
        Category::CommandLineInterface,
        Category::CommandLineUtilities,
        Category::Compilers,
        Category::Compression,
        Category::ComputerVision,
        Category::Concurrency,
        Category::Config,
        Category::Cryptography,
        Category::Database,
        Category::DatabaseImplementations,
        Category::DataStructures,
        Category::DateAndTime,
        Category::DevelopmentTools,
        Category::Email,
        Category::Embedded,
        Category::Emulators,
        Category::Encoding,
        Category::ExternalFfiBindings,
        Category::Filesystem,
        Category::GameDevelopment,
        Category::GameEngines,
        Category::Games,
        Category::Graphics,
        Category::Gui,
        Category::HardwareSupport,
        Category::Internationalization,
        Category::Localization,
        Category::Mathematics,
        Category::MemoryManagement,
        Category::Multimedia,
        Category::NetworkProgramming,
        Category::NoStd,
        Category::Os,
        Category::ParserImplementations,
        Category::Parsing,
        Category::Rendering,
        Category::RustPatterns,
        Category::Science,
        Category::Simulation,
        Category::TemplateEngine,
        Category::TextEditors,
        Category::TextProcessing,
        Category::ValueFormatting,
        Category::Visualization,
        Category::Wasm,
        Category::WebProgramming,
    ];
    assert_eq!(all.len(), 52);
    for category in all {
        assert_eq!(Category::from_str(category.to_str()), Some(category));
    }
}

#[test]
fn default_query_asks_for_a_hundred_results() {
    let query = Query::default();
    assert_eq!(query.string, None);
    assert_eq!(query.page, None);
    assert_eq!(query.per_page, Some(100));
    assert_eq!(query.keyword, None);
    assert_eq!(query.category, None);
    assert_eq!(query.sort, None);
}

#[test]
fn query_with_category_and_sorting() {
    let query = Query::from_str("api cat=web sort=update");
    assert_eq!(query.string, Some(String::from("api")));
    assert_eq!(query.category, Some(Category::WebProgramming));
    assert_eq!(query.sort, Some(Sorting::RecentUpdates));
    assert_eq!(query.page, None);
    assert_eq!(query.per_page, Some(100));
    assert_eq!(query.keyword, None);
}

#[test]
fn query_with_short_forms() {
    let query = Query::from_str("net cat=gamedev sort=rdl");
    assert_eq!(query.string, Some(String::from("net")));
    assert_eq!(query.category, Some(Category::GameDevelopment));
    assert_eq!(query.sort, Some(Sorting::RecentDownloads));
}

#[test]
fn query_with_every_option() {
    let query = Query::from_str("category=parsing keyword=json sort=new page=3 num=25 serde");
    assert_eq!(query.string, Some(String::from("serde")));
    assert_eq!(query.category, Some(Category::Parsing));
    assert_eq!(query.keyword, Some(String::from("json")));
    assert_eq!(query.sort, Some(Sorting::NewlyAdded));
    assert_eq!(query.page, Some(3));
    assert_eq!(query.per_page, Some(25));
}

#[test]
fn query_of_an_empty_string_searches_for_nothing() {
    let query = Query::from_str("");
    assert_eq!(query.string, Some(String::new()));
    assert_eq!(query.per_page, Some(100));
}

#[test]
fn query_takes_the_last_search_string() {
    assert_eq!(Query::from_str("one two").string, Some(String::from("two")));
    assert_eq!(Query::from_str("one ").string, Some(String::new()));
    assert_eq!(Query::from_str("one  two").string, Some(String::from("two")));
    assert_eq!(Query::from_str(" one").string, Some(String::from("one")));
}

#[test]
fn query_token_that_ends_in_equals_sets_nothing() {
    let query = Query::from_str("cat= keyword= sort= page= num= per-page= other=");
    assert_eq!(query.string, None);
    assert_eq!(query.category, None);
    assert_eq!(query.keyword, None);
    assert_eq!(query.sort, None);
    assert_eq!(query.page, None);
    assert_eq!(query.per_page, Some(100));
}

#[test]
fn query_unknown_names_unset_the_option() {
    let query = Query::from_str("cat=web sort=new cat=nothing sort=nothing");
    assert_eq!(query.category, None);
    assert_eq!(query.sort, None);
}

#[test]
fn query_value_ends_at_the_second_equals() {
    let query = Query::from_str("keyword=a=b cat=web=x page=4=5");
    assert_eq!(query.keyword, Some(String::from("a")));
    assert_eq!(query.category, Some(Category::WebProgramming));
    assert_eq!(query.page, Some(4));
    assert_eq!(Query::from_str("keyword==b").keyword, Some(String::new()));
}

#[test]
fn query_keyword_is_any_token_that_holds_key_or_kw() {
    assert_eq!(Query::from_str("key=cli").keyword, Some(String::from("cli")));
    assert_eq!(Query::from_str("kw=cli").keyword, Some(String::from("cli")));
    assert_eq!(Query::from_str("monkey=cli").keyword, Some(String::from("cli")));
    // The name of the option counts wherever it stands in the token.
    assert_eq!(Query::from_str("x=kw").keyword, Some(String::from("kw")));
    // A category token wins over a keyword token.
    let query = Query::from_str("cat=web,key");
    assert_eq!(query.keyword, None);
    assert_eq!(query.category, None);
}

#[test]
fn query_numbers_that_cannot_be_read_are_passed_over() {
    let query = Query::from_str("page=two num=-1");
    assert_eq!(query.page, None);
    assert_eq!(query.per_page, Some(100));
    let query = Query::from_str("page=2 page=x num=5 num=99999999999999999999999");
    assert_eq!(query.page, Some(2));
    assert_eq!(query.per_page, Some(5));
    assert_eq!(Query::from_str("page=+7").page, Some(7));
}

#[test]
fn query_per_page_with_an_equals_sign_is_a_page() {
    let query = Query::from_str("per-page=5");
    assert_eq!(query.page, Some(5));
    assert_eq!(query.per_page, Some(100));
    let query = Query::from_str("num=5");
    assert_eq!(query.page, None);
    assert_eq!(query.per_page, Some(5));
}

#[test]
fn query_other_tokens_with_an_equals_sign_are_passed_over() {
    let query = Query::from_str("a=b sort=");
    assert_eq!(query.string, None);
    assert_eq!(query.sort, None);
}

#[test]
fn try_from_str_reads_what_from_str_reads() {
    let query = Query::try_from_str("api cat=web sort=update").expect("a query");
    assert_eq!(query.string, Some(String::from("api")));
    assert_eq!(query.category, Some(Category::WebProgramming));
    assert_eq!(query.sort, Some(Sorting::RecentUpdates));
    assert_eq!(query.per_page, Some(100));
    let query = Query::try_from_str("").expect("a query");
    assert_eq!(query.string, Some(String::new()));
    assert!(Query::try_from_str("key= kw= num= per-page=").is_some());
    assert!(Query::try_from_str("key=a num=1").is_some());
}

#[test]
fn try_from_str_refuses_an_option_without_a_value() {
    assert!(Query::try_from_str("key").is_none());
    assert!(Query::try_from_str("kw").is_none());
    assert!(Query::try_from_str("monkey").is_none());
    assert!(Query::try_from_str("number").is_none());
    assert!(Query::try_from_str("per-page").is_none());
    assert!(Query::try_from_str("api cat=web keyboard").is_none());
    assert!(Query::try_from_str("keyboard api").is_none());
}

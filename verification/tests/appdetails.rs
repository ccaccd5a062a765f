use serde_json::{Number, Value};
use steam_webapi_rust_sdk::cache::{CacheWrite, Cached, FetchRequest};
use steam_webapi_rust_sdk::error::ApiError;
use steam_webapi_rust_sdk::json::Json;
use steam_webapi_rust_sdk::store_steampowered_com;
use steam_webapi_rust_sdk::store_steampowered_com::appdetails::{
    Achievement, Category, ContentDescriptors, Demo, FullGame, Genre, Highlight,
    LinuxRequirements, MacRequirements, Metacritic, Movie, Mp4, PackageGroup, PcRequirements,
    Platforms, PriceOverview, Recommendations, ReleaseDate, Screenshot, SteamAppDetails, Sub,
    SupportInfo, Webm,
};

fn text(characters: &str) -> Value {
    Value::String(characters.to_string())
}

fn number(n: i64) -> Value {
    Value::Number(Number::from(n))
}

fn object(members: Vec<(&str, Value)>) -> Value {
    let mut map = serde_json::Map::new();
    for (key, value) in members {
        map.insert(key.to_string(), value);
    }
    Value::Object(map)
}

/// The text of a response that answers for `app_id` with `data`.
fn response(app_id: i64, data: Value) -> String {
    let answer = object(vec![("success", Value::Bool(true)), ("data", data)]);
    let mut map = serde_json::Map::new();
    map.insert(app_id.to_string(), answer);
    serde_json::to_string(&Value::Object(map)).unwrap()
}

fn fetched(app_id: i64, data: Value) -> SteamAppDetails {
    let body = response(app_id, data);
    store_steampowered_com::appdetails::get(app_id, Ok(body)).result.unwrap()
}

fn from_cache(app_id: i64, data: Value) -> SteamAppDetails {
    let body = response(app_id, data);
    match store_steampowered_com::appdetails::get_cached(app_id, Some(body)) {
        Cached::Hit(result) => result.unwrap(),
        Cached::Miss(_) => panic!("a file was there"),
    }
}

fn blank(app_id: i64) -> SteamAppDetails {
    SteamAppDetails {
        app_id,
        name: String::new(),
        app_type: String::new(),
        supported_languages: String::new(),
        support_info: SupportInfo { url: String::new(), email: String::new() },
        short_description: String::new(),
        screenshots: vec![],
        reviews: String::new(),
        required_age: 0,
        release_date: ReleaseDate { date: String::new(), coming_soon: false },
        recommendations: Recommendations { total: 0 },
        price_overview: PriceOverview {
            recurring_sub_desc: String::new(),
            recurring_sub: 0,
            initial_formatted: String::new(),
            initial: 0,
            final_formatted: String::new(),
            final_price: 0,
            discount_percent: 0,
            currency: String::new(),
        },
        platforms: Platforms { windows: false, mac: false, linux: false },
        pc_requirements: PcRequirements { recommended: String::new(), minimum: String::new() },
        mac_requirements: MacRequirements { recommended: String::new(), minimum: String::new() },
        linux_requirements: LinuxRequirements {
            recommended: String::new(),
            minimum: String::new(),
        },
        package_groups: vec![],
        movies: vec![],
        metacritic: Metacritic { url: String::new(), score: 0 },
        legal_notice: String::new(),
        is_free: false,
        genres: vec![],
        fullgame: FullGame { name: String::new(), appid: String::new() },
        ext_user_account_notice: String::new(),
        drm_notice: String::new(),
        detailed_description: String::new(),
        header_image: String::new(),
        demos: vec![],
        controller_support: String::new(),
        content_descriptors: ContentDescriptors { notes: String::new() },
        categories: vec![],
        website: String::new(),
        background_raw: String::new(),
        background: String::new(),
        alternate_appid: String::new(),
        about_the_game: String::new(),
        achievements: Achievement { total: 0, highlighted: vec![] },
    }
}

const DOTA_REVIEWS: &str = "“A modern multiplayer masterpiece.”<br>9.5/10 – <a href=\"https://www.destructoid.com/review-dota-2-258506.phtml\" target=\"_blank\" rel=\"noreferrer\"  >Destructoid</a><br><br>“Once you start to learn its secrets, there’s a wild and exciting variety of play here that’s unmatched, even by its peers.”<br>9.4/10 – <a href=\"http://www.ign.com/articles/2013/07/24/dota-2-review\" target=\"_blank\" rel=\"noreferrer\"  >IGN</a><br><br>“Dota 2 is possibly the only competitive free-to-play game that is totally uncompromised by its business model.”<br>90/100 – <a href=\"http://www.pcgamer.com/dota-2-review-2/\" target=\"_blank\" rel=\"noreferrer\"  >PC Gamer</a><br>";

#[test]
fn appdetails_test_test_get() {
    let app_id = 570;
    let app = fetched(
        app_id,
        object(vec![
            ("type", text("game")),
            ("name", text("Dota 2")),
            ("steam_appid", number(570)),
            ("is_free", Value::Bool(true)),
            ("reviews", text(DOTA_REVIEWS)),
        ]),
    );

    assert_eq!(app.name, "Dota 2".to_string());
    assert_eq!(app.reviews, "“A modern multiplayer masterpiece.”<br>9.5/10 – <a href=\"https://www.destructoid.com/review-dota-2-258506.phtml\" target=\"_blank\" rel=\"noreferrer\"  >Destructoid</a><br><br>“Once you start to learn its secrets, there’s a wild and exciting variety of play here that’s unmatched, even by its peers.”<br>9.4/10 – <a href=\"http://www.ign.com/articles/2013/07/24/dota-2-review\" target=\"_blank\" rel=\"noreferrer\"  >IGN</a><br><br>“Dota 2 is possibly the only competitive free-to-play game that is totally uncompromised by its business model.”<br>90/100 – <a href=\"http://www.pcgamer.com/dota-2-review-2/\" target=\"_blank\" rel=\"noreferrer\"  >PC Gamer</a><br>".to_string());
}

#[test]
fn test_get_2210() {
    let app_id = 2210;
    let app = fetched(
        app_id,
        object(vec![("name", text("Quake 4")), ("required_age", text("18"))]),
    );

    assert_eq!(app.required_age, 18);
}

#[test]
fn test_get_1070410() {
    let app_id = 1070410;
    let app = fetched(
        app_id,
        object(vec![
            ("name", text("EA Play")),
            (
                "price_overview",
                object(vec![
                    ("currency", text("UAH")),
                    ("initial", number(29900)),
                    ("final", number(29900)),
                    ("discount_percent", number(0)),
                    ("initial_formatted", text("")),
                    ("final_formatted", text("279₴")),
                    ("recurring_sub", number(414304)),
                    (
                        "recurring_sub_desc",
                        text("279₴ at checkout, auto-renewed every 1 month(s) at 169₴."),
                    ),
                ]),
            ),
        ]),
    );

    assert_eq!(app.price_overview.recurring_sub_desc, "279₴ at checkout, auto-renewed every 1 month(s) at 169₴.");
    assert_eq!(app.price_overview.recurring_sub, 414304);
    assert_eq!(app.price_overview.currency, "UAH");
    assert_eq!(app.price_overview.final_price, 29900);
    assert_eq!(app.price_overview.discount_percent, 0);
    assert_eq!(app.price_overview.initial, 29900);
    assert_eq!(app.price_overview.initial_formatted, "");
}

#[test]
fn test_get_1900() {
    let app_id = 1900;
    let app = fetched(
        app_id,
        object(vec![
            ("name", text("Earth 2160")),
            (
                "price_overview",
                object(vec![
                    ("currency", text("UAH")),
                    ("initial", number(12900)),
                    ("final", number(12900)),
                    ("final_formatted", text("129₴")),
                ]),
            ),
        ]),
    );

    assert_eq!(app.price_overview.initial_formatted, "");
}

const L4D2_RECOMMENDED: &str = "<strong>Recommended:</strong><br><ul class=\"bb_ul\"><li><strong>OS:</strong> Windows® 7 32/64-bit / Vista 32/64 / XP<br></li><li><strong>Processor:</strong> Intel core 2 duo 2.4GHz<br></li><li><strong>Memory:</strong> 2 GB RAM<br></li><li><strong>Graphics:</strong> Video Card Shader model 3.0. NVidia 7600, ATI X1600 or better<br></li><li><strong>DirectX:</strong> Version 9.0c<br></li><li><strong>Storage:</strong> 13 GB available space<br></li><li><strong>Sound Card:</strong> DirectX 9.0c compatible sound card</li></ul>";
const L4D2_MINIMUM: &str = "<strong>Minimum:</strong><br><ul class=\"bb_ul\"><li><strong>OS:</strong> Windows® 7 32/64-bit / Vista 32/64 / XP<br></li><li><strong>Processor:</strong> Pentium 4 3.0GHz<br></li><li><strong>Memory:</strong> 2 GB RAM<br></li><li><strong>Graphics:</strong> Video card with 128 MB, Shader model 2.0. ATI X800, NVidia 6600 or better<br></li><li><strong>DirectX:</strong> Version 9.0c<br></li><li><strong>Storage:</strong> 13 GB available space<br></li><li><strong>Sound Card:</strong> DirectX 9.0c compatible sound card</li></ul>";

#[test]
fn test_get_550() {
    let app_id = 550;
    let app = fetched(
        app_id,
        object(vec![
            ("name", text("Left 4 Dead 2")),
            (
                "pc_requirements",
                object(vec![("minimum", text(L4D2_MINIMUM)), ("recommended", text(L4D2_RECOMMENDED))]),
            ),
        ]),
    );

    assert_eq!(app.pc_requirements.recommended, "<strong>Recommended:</strong><br><ul class=\"bb_ul\"><li><strong>OS:</strong> Windows® 7 32/64-bit / Vista 32/64 / XP<br></li><li><strong>Processor:</strong> Intel core 2 duo 2.4GHz<br></li><li><strong>Memory:</strong> 2 GB RAM<br></li><li><strong>Graphics:</strong> Video Card Shader model 3.0. NVidia 7600, ATI X1600 or better<br></li><li><strong>DirectX:</strong> Version 9.0c<br></li><li><strong>Storage:</strong> 13 GB available space<br></li><li><strong>Sound Card:</strong> DirectX 9.0c compatible sound card</li></ul>");
    assert_eq!(app.pc_requirements.minimum, "<strong>Minimum:</strong><br><ul class=\"bb_ul\"><li><strong>OS:</strong> Windows® 7 32/64-bit / Vista 32/64 / XP<br></li><li><strong>Processor:</strong> Pentium 4 3.0GHz<br></li><li><strong>Memory:</strong> 2 GB RAM<br></li><li><strong>Graphics:</strong> Video card with 128 MB, Shader model 2.0. ATI X800, NVidia 6600 or better<br></li><li><strong>DirectX:</strong> Version 9.0c<br></li><li><strong>Storage:</strong> 13 GB available space<br></li><li><strong>Sound Card:</strong> DirectX 9.0c compatible sound card</li></ul>");
}

#[test]
fn test_get_320() {
    let app_id = 320;
    let app = fetched(
        app_id,
        object(vec![
            ("name", text("Half-Life 2: Deathmatch")),
            (
                "mac_requirements",
                object(vec![(
                    "minimum",
                    text("<strong>Minimum: </strong>OS X version Leopard 10.5.8, Snow Leopard 10.6.3, 1GB RAM, NVIDIA GeForce 8 or higher, ATI X1600 or higher, or Intel HD 3000 or higher Mouse, Keyboard, Internet Connection"),
                )]),
            ),
        ]),
    );

    assert_eq!(app.mac_requirements.recommended, "");
    assert_eq!(app.mac_requirements.minimum, "<strong>Minimum: </strong>OS X version Leopard 10.5.8, Snow Leopard 10.6.3, 1GB RAM, NVIDIA GeForce 8 or higher, ATI X1600 or higher, or Intel HD 3000 or higher Mouse, Keyboard, Internet Connection");
}

const CSGO_LANGUAGES: &str = "Czech, Danish, Dutch, English<strong>*</strong>, Finnish, French, German, Hungarian, Italian, Japanese, Korean, Norwegian, Polish, Portuguese, Portuguese - Brazil, Romanian, Russian, Simplified Chinese, Spanish - Spain, Swedish, Thai, Traditional Chinese, Turkish, Bulgarian, Ukrainian, Greek, Spanish - Latin America, Vietnamese<br><strong>*</strong>languages with full audio support";
const CSGO_SHORT: &str = "Counter-Strike: Global Offensive (CS: GO) expands upon the team-based action gameplay that it pioneered when it was launched 19 years ago. CS: GO features new maps, characters, weapons, and game modes, and delivers updated versions of the classic CS content (de_dust2, etc.).";
const CSGO_PC_MINIMUM: &str = "<strong>Minimum:</strong><br><ul class=\"bb_ul\"><li><strong>OS:</strong> Windows® 7/Vista/XP<br></li><li><strong>Processor:</strong> Intel® Core™ 2 Duo E6600 or AMD Phenom™ X3 8750 processor or better<br></li><li><strong>Memory:</strong> 2 GB RAM<br></li><li><strong>Graphics:</strong> Video card must be 256 MB or more and should be a DirectX 9-compatible with support for Pixel Shader 3.0<br></li><li><strong>DirectX:</strong> Version 9.0c<br></li><li><strong>Storage:</strong> 15 GB available space</li></ul>";
const CSGO_MAC_MINIMUM: &str = "<strong>Minimum:</strong><br><ul class=\"bb_ul\"><li><strong>OS:</strong> MacOS X 10.11 (El Capitan) or later<br></li><li><strong>Processor:</strong> Intel Core Duo Processor (2GHz or better)<br></li><li><strong>Memory:</strong> 2 GB RAM<br></li><li><strong>Graphics:</strong> ATI Radeon HD 2400 or better / NVIDIA 8600M or better<br></li><li><strong>Storage:</strong> 15 GB available space</li></ul>";
const CSGO_DESCRIPTION: &str = "Counter-Strike: Global Offensive (CS: GO) expands upon the team-based action gameplay that it pioneered when it was launched 19 years ago.<br />\r\n<br />\r\nCS: GO features new maps, characters, weapons, and game modes, and delivers updated versions of the classic CS content (de_dust2, etc.).<br />\r\n<br />\r\n&quot;Counter-Strike took the gaming industry by surprise when the unlikely MOD became the most played online PC action game in the world almost immediately after its release in August 1999,&quot; said Doug Lombardi at Valve. &quot;For the past 12 years, it has continued to be one of the most-played games in the world, headline competitive gaming tournaments and selling over 25 million units worldwide across the franchise. CS: GO promises to expand on CS' award-winning gameplay and deliver it to gamers on the PC as well as the next gen consoles and the Mac.&quot;";

fn csgo_screenshot(id: i64, name: &str) -> Value {
    object(vec![
        ("id", number(id)),
        (
            "path_thumbnail",
            text(
                format!(
                    "https://cdn.akamai.steamstatic.com/steam/apps/730/{}.600x338.jpg?t=1641233427",
                    name
                )
                .as_str(),
            ),
        ),
        (
            "path_full",
            text(
                format!(
                    "https://cdn.akamai.steamstatic.com/steam/apps/730/{}.1920x1080.jpg?t=1641233427",
                    name
                )
                .as_str(),
            ),
        ),
    ])
}

fn csgo_movie(id: i64, name: &str, highlight: bool) -> Value {
    object(vec![
        ("id", number(id)),
        ("name", text(name)),
        (
            "thumbnail",
            text(
                format!(
                    "https://cdn.akamai.steamstatic.com/steam/apps/{}/movie.293x165.jpg?t=1554409259",
                    id
                )
                .as_str(),
            ),
        ),
        (
            "webm",
            object(vec![
                ("480", text("http://cdn.akamai.steamstatic.com/steam/apps/81958/movie480.webm")),
                ("max", text("http://cdn.akamai.steamstatic.com/steam/apps/81958/movie_max.webm")),
            ]),
        ),
        (
            "mp4",
            object(vec![
                ("480", text("http://cdn.akamai.steamstatic.com/steam/apps/81958/movie480.mp4")),
                ("max", text("http://cdn.akamai.steamstatic.com/steam/apps/81958/movie_max.mp4")),
            ]),
        ),
        ("highlight", Value::Bool(highlight)),
    ])
}

/// What the store says of Counter-Strike: Global Offensive, in the members
/// that the tests look at.
fn csgo() -> Value {
    let names = [
        "ss_118cb022b9a43f70d2e5a2df7427f29088b6b191",
        "ss_d196d945c6170e9cadaf67a6dea675bd5fa7a046",
        "ss_34090867f1a02b6c17652ba9043e3f622ed985a9",
        "ss_1d30c9a215fd621e2fd74f40d93b71587bf6409c",
        "ss_baa02e979cd3852e3c4182afcd603ab64e3502f9",
        "ss_ffe584c163a2b16e9c1b733b1c8e2ba669fb1204",
        "ss_d87c102d028d545c877363166c9d8377014f0c23",
        "ss_9d0735a5fbe523fd39f2c69c047019843c326cea",
        "ss_9d889bec419cf38910ccf72dd80f9260227408ee",
        "ss_ccc4ce6edd4c454b6ce7b0757e633b63aa93921d",
        "ss_60b4f959497899515f46012df805b0006ef21af6",
    ];
    let mut screenshots = vec![];
    for (id, name) in names.iter().enumerate() {
        screenshots.push(csgo_screenshot(id as i64, name));
    }
    let mut movies = vec![csgo_movie(81958, "CS:GO Trailer Long", true)];
    for id in 0..7 {
        movies.push(csgo_movie(2028283 + id, "CS:GO Operation Trailer", false));
    }
    object(vec![
        ("type", text("game")),
        ("name", text("Counter-Strike: Global Offensive")),
        ("steam_appid", number(730)),
        ("required_age", number(0)),
        ("is_free", Value::Bool(true)),
        ("detailed_description", text(CSGO_DESCRIPTION)),
        ("short_description", text(CSGO_SHORT)),
        ("supported_languages", text(CSGO_LANGUAGES)),
        ("header_image", text("https://cdn.akamai.steamstatic.com/steam/apps/730/header.jpg?t=1641233427")),
        ("website", text("http://blog.counter-strike.net/")),
        ("pc_requirements", object(vec![("minimum", text(CSGO_PC_MINIMUM))])),
        ("mac_requirements", object(vec![("minimum", text(CSGO_MAC_MINIMUM))])),
        ("linux_requirements", object(vec![("minimum", text("SteamOS + Linux"))])),
        (
            "package_groups",
            Value::Array(vec![object(vec![
                ("name", text("default")),
                ("title", text("Buy Counter-Strike: Global Offensive")),
                ("description", text("")),
                ("selection_text", text("Select a purchase option")),
                ("save_text", text("")),
                ("display_type", number(0)),
                ("is_recurring_subscription", text("false")),
                (
                    "subs",
                    Value::Array(vec![
                        object(vec![
                            ("packageid", number(298963)),
                            ("percent_savings_text", text(" ")),
                            ("percent_savings", number(0)),
                            ("option_text", text("Counter-Strike: Global Offensive - Free")),
                            ("option_description", text("")),
                            ("can_get_free_license", text("0")),
                            ("is_free_license", Value::Bool(true)),
                            ("price_in_cents_with_discount", number(0)),
                        ]),
                        object(vec![
                            ("packageid", number(54029)),
                            ("percent_savings_text", text(" ")),
                            ("percent_savings", number(0)),
                            ("option_text", text("Prime Status Upgrade - $14.99")),
                            ("option_description", text("")),
                            ("can_get_free_license", text("0")),
                            ("is_free_license", Value::Bool(false)),
                            ("price_in_cents_with_discount", number(1499)),
                        ]),
                    ]),
                ),
            ])]),
        ),
        ("platforms", object(vec![
            ("windows", Value::Bool(true)),
            ("mac", Value::Bool(true)),
            ("linux", Value::Bool(true)),
        ])),
        ("recommendations", object(vec![("total", number(3452092))])),
        ("release_date", object(vec![
            ("coming_soon", Value::Bool(false)),
            ("date", text("Aug 21, 2012")),
        ])),
        ("support_info", object(vec![("url", text("")), ("email", text(""))])),
        ("screenshots", Value::Array(screenshots)),
        ("movies", Value::Array(movies)),
    ])
}

#[test]
fn test_get_cached_730() {
    let app_id = 730;
    let app = from_cache(app_id, csgo());

    assert_eq!(app.name, "Counter-Strike: Global Offensive".to_string());
    assert_eq!(app.app_type, "game".to_string());
    assert_eq!(app.supported_languages, "Czech, Danish, Dutch, English<strong>*</strong>, Finnish, French, German, Hungarian, Italian, Japanese, Korean, Norwegian, Polish, Portuguese, Portuguese - Brazil, Romanian, Russian, Simplified Chinese, Spanish - Spain, Swedish, Thai, Traditional Chinese, Turkish, Bulgarian, Ukrainian, Greek, Spanish - Latin America, Vietnamese<br><strong>*</strong>languages with full audio support".to_string());
    assert_eq!(app.support_info.url, "".to_string());
    assert_eq!(app.support_info.email, "".to_string());
    assert_eq!(app.short_description, "Counter-Strike: Global Offensive (CS: GO) expands upon the team-based action gameplay that it pioneered when it was launched 19 years ago. CS: GO features new maps, characters, weapons, and game modes, and delivers updated versions of the classic CS content (de_dust2, etc.).".to_string());

    let first_screen = app.screenshots.get(0).unwrap();
    assert_eq!(first_screen.id, 0);
    assert_eq!(first_screen.path_thumbnail, "https://cdn.akamai.steamstatic.com/steam/apps/730/ss_118cb022b9a43f70d2e5a2df7427f29088b6b191.600x338.jpg?t=1641233427");
    assert_eq!(first_screen.path_full, "https://cdn.akamai.steamstatic.com/steam/apps/730/ss_118cb022b9a43f70d2e5a2df7427f29088b6b191.1920x1080.jpg?t=1641233427");

    let last_screen = app.screenshots.get(10).unwrap();
    assert_eq!(last_screen.id, 10);
    assert_eq!(last_screen.path_thumbnail, "https://cdn.akamai.steamstatic.com/steam/apps/730/ss_60b4f959497899515f46012df805b0006ef21af6.600x338.jpg?t=1641233427");
    assert_eq!(last_screen.path_full, "https://cdn.akamai.steamstatic.com/steam/apps/730/ss_60b4f959497899515f46012df805b0006ef21af6.1920x1080.jpg?t=1641233427");

    assert_eq!(app.required_age, 0);
    assert_eq!(app.release_date.coming_soon, false);
    assert_eq!(app.release_date.date, "Aug 21, 2012");
    assert_eq!(app.recommendations.total, 3452092);
    assert_eq!(app.platforms.windows, true);
    assert_eq!(app.platforms.mac, true);
    assert_eq!(app.platforms.linux, true);

    assert_eq!(app.pc_requirements.recommended, "");
    assert_eq!(app.pc_requirements.minimum, "<strong>Minimum:</strong><br><ul class=\"bb_ul\"><li><strong>OS:</strong> Windows® 7/Vista/XP<br></li><li><strong>Processor:</strong> Intel® Core™ 2 Duo E6600 or AMD Phenom™ X3 8750 processor or better<br></li><li><strong>Memory:</strong> 2 GB RAM<br></li><li><strong>Graphics:</strong> Video card must be 256 MB or more and should be a DirectX 9-compatible with support for Pixel Shader 3.0<br></li><li><strong>DirectX:</strong> Version 9.0c<br></li><li><strong>Storage:</strong> 15 GB available space</li></ul>");

    assert_eq!(app.mac_requirements.recommended, "");
    assert_eq!(app.mac_requirements.minimum, "<strong>Minimum:</strong><br><ul class=\"bb_ul\"><li><strong>OS:</strong> MacOS X 10.11 (El Capitan) or later<br></li><li><strong>Processor:</strong> Intel Core Duo Processor (2GHz or better)<br></li><li><strong>Memory:</strong> 2 GB RAM<br></li><li><strong>Graphics:</strong> ATI Radeon HD 2400 or better / NVIDIA 8600M or better<br></li><li><strong>Storage:</strong> 15 GB available space</li></ul>");
    assert_eq!(app.package_groups.get(0).unwrap().title, "Buy Counter-Strike: Global Offensive");
    assert_eq!(app.package_groups.get(0).unwrap().selection_text, "Select a purchase option");
    assert_eq!(app.package_groups.get(0).unwrap().name, "default");
    assert_eq!(app.package_groups.get(0).unwrap().save_text, "");
    assert_eq!(app.package_groups.get(0).unwrap().is_recurring_subscription, "false");
    assert_eq!(app.package_groups.get(0).unwrap().display_type, "0");
    assert_eq!(app.package_groups.get(0).unwrap().subs.get(0).unwrap().packageid, 298963);
    assert_eq!(app.package_groups.get(0).unwrap().subs.get(0).unwrap().price_in_cents_with_discount, 0);

    assert_eq!(app.package_groups.get(0).unwrap().subs.len(), 2);

    assert_eq!(app.package_groups.get(0).unwrap().subs.get(1).unwrap().packageid, 54029);
    assert_eq!(app.package_groups.get(0).unwrap().subs.get(1).unwrap().price_in_cents_with_discount, 1499);

    assert_eq!(app.movies.get(0).unwrap().thumbnail, "https://cdn.akamai.steamstatic.com/steam/apps/81958/movie.293x165.jpg?t=1554409259");
    assert_eq!(app.movies.get(0).unwrap().name, "CS:GO Trailer Long");
    assert_eq!(app.movies.get(0).unwrap().id, 81958);
    assert_eq!(app.movies.get(0).unwrap().highlight, true);
    assert_eq!(app.movies.len(), 8);

}

#[test]
fn test_get_cached_214150() {
    let app_id = 214150;
    let app = from_cache(
        app_id,
        object(vec![
            ("name", text("Kung Fu Strike: The Warrior's Rise")),
            (
                "package_groups",
                Value::Array(vec![object(vec![
                    ("name", text("default")),
                    ("title", text("Buy Kung Fu Strike: The Warrior's Rise")),
                    ("description", text("")),
                    ("display_type", text("default")),
                    ("subs", Value::Array(vec![])),
                ])]),
            ),
        ]),
    );
    assert_eq!(app.package_groups.get(0).unwrap().display_type, "default");
    assert_eq!(app.package_groups.get(0).unwrap().description, "");
}

#[test]
fn test_get_cache_dir_path() {
    let app_id = 730;
    let cache_dir_path = store_steampowered_com::appdetails::get_cache_dir_path(app_id);

    assert_eq!(cache_dir_path, "steam-webapi-cache/steampowered/appdetails/0/730/".to_string());
}

#[test]
fn appdetails_test_test_get_resource_filepath() {
    let app_id = 730;
    let resource_filepath = store_steampowered_com::appdetails::get_resource_filepath(app_id);

    assert_eq!(resource_filepath, "steam-webapi-cache/steampowered/appdetails/0/730/730.json".to_string());
}

#[test]
fn test_get_resource_filepath_long_number() {
    let app_id = 147730;
    let resource_filepath = store_steampowered_com::appdetails::get_resource_filepath(app_id);

    assert_eq!(resource_filepath, "steam-webapi-cache/steampowered/appdetails/14/147730/147730.json".to_string());
}

#[test]
fn appdetails_test_test_get_api_url() {
    let app_id = 147730;
    let api_url = store_steampowered_com::appdetails::get_api_url(app_id);

    let expected_api_url = format!("https://store.steampowered.com/api/appdetails?appids={}&lang=en", app_id);

    assert_eq!(api_url, expected_api_url.to_string());
}

#[test]
fn appdetails_test_test_make_api_call() {
    let app_id = 147730;
    let received = response(app_id, object(vec![("name", text("Awesomenauts"))])).into_bytes();
    let result = steam_webapi_rust_sdk::make_api_call(Some(received));

    assert!(result.is_ok());

    let response = result.unwrap();
    assert!(response.len() > 0);
}

#[test]
fn appdetails_test_test_parse_api_call_result() {
    let app_id = 730;
    let received = response(app_id, csgo()).into_bytes();
    let result = steam_webapi_rust_sdk::make_api_call(Some(received));

    assert!(result.is_ok());

    let response = result.unwrap();
    assert!(response.len() > 0);

    let boxed_result = store_steampowered_com::appdetails::parse_api_call_result(response, app_id);
    assert!(boxed_result.is_ok());

    let steam_app = boxed_result.unwrap();
    assert_eq!(steam_app.app_id, app_id);
    assert_eq!(steam_app.name, "Counter-Strike: Global Offensive");
    assert_eq!(steam_app.reviews, "");
    assert_eq!(steam_app.header_image, "https://cdn.akamai.steamstatic.com/steam/apps/730/header.jpg?t=1641233427");
    assert_eq!(steam_app.website, "http://blog.counter-strike.net/");

    let description = "Counter-Strike: Global Offensive (CS: GO) expands upon the team-based action gameplay that it pioneered when it was launched 19 years ago.<br />\r\n<br />\r\nCS: GO features new maps, characters, weapons, and game modes, and delivers updated versions of the classic CS content (de_dust2, etc.).<br />\r\n<br />\r\n&quot;Counter-Strike took the gaming industry by surprise when the unlikely MOD became the most played online PC action game in the world almost immediately after its release in August 1999,&quot; said Doug Lombardi at Valve. &quot;For the past 12 years, it has continued to be one of the most-played games in the world, headline competitive gaming tournaments and selling over 25 million units worldwide across the franchise. CS: GO promises to expand on CS' award-winning gameplay and deliver it to gamers on the PC as well as the next gen consoles and the Mac.&quot;";
    assert_eq!(steam_app.detailed_description, description);
}

#[test]
fn paths_are_the_same_on_every_call() {
    for app_id in [0_i64, 1, 9999, 10000, 730, 147730, 1070410, 2147483647] {
        assert_eq!(
            store_steampowered_com::appdetails::get_resource_filepath(app_id),
            store_steampowered_com::appdetails::get_resource_filepath(app_id)
        );
        assert_eq!(
            store_steampowered_com::appdetails::get_cache_dir_path(app_id),
            store_steampowered_com::appdetails::get_cache_dir_path(app_id)
        );
    }
}

#[test]
fn an_app_lies_in_the_bucket_of_its_id() {
    let path = store_steampowered_com::appdetails::get_resource_filepath;
    assert!(path(730).ends_with("/0/730/730.json"));
    assert!(path(147730).ends_with("/14/147730/147730.json"));
    assert_eq!(path(0), "steam-webapi-cache/steampowered/appdetails/0/0/0.json");
    assert_eq!(path(9999), "steam-webapi-cache/steampowered/appdetails/0/9999/9999.json");
    assert_eq!(path(10000), "steam-webapi-cache/steampowered/appdetails/1/10000/10000.json");
    assert_eq!(path(1070410), "steam-webapi-cache/steampowered/appdetails/107/1070410/1070410.json");
    assert_eq!(path(-5), "steam-webapi-cache/steampowered/appdetails/0/-5/-5.json");
    assert_eq!(path(-10001), "steam-webapi-cache/steampowered/appdetails/-1/-10001/-10001.json");
    assert_eq!(
        path(i64::MAX),
        "steam-webapi-cache/steampowered/appdetails/922337203685477/9223372036854775807/9223372036854775807.json"
    );
}

#[test]
fn an_empty_response_gives_a_blank_record_and_no_file() {
    let fetched = store_steampowered_com::appdetails::get(570, Ok(String::new()));
    assert_eq!(fetched.result, Ok(blank(570)));
    assert_eq!(fetched.write, None);
    assert_eq!(
        store_steampowered_com::appdetails::parse_api_call_result(String::new(), 7),
        Ok(blank(7))
    );
}

#[test]
fn a_minimal_document_gives_a_blank_record() {
    let body = "{\"570\":{\"success\":true}}".to_string();
    assert_eq!(
        store_steampowered_com::appdetails::parse_api_call_result(body, 570),
        Ok(blank(570))
    );
    let body = "{\"570\":{\"success\":true,\"data\":{}}}".to_string();
    assert_eq!(
        store_steampowered_com::appdetails::parse_api_call_result(body, 570),
        Ok(blank(570))
    );
}

#[test]
fn a_missing_member_leaves_its_field_at_zero() {
    let app = fetched(10, object(vec![("name", text("Counter-Strike"))]));
    let mut expected = blank(10);
    expected.name = "Counter-Strike".to_string();
    assert_eq!(app, expected);
}

#[test]
fn a_member_of_another_type_leaves_its_field_at_zero() {
    let app = fetched(
        10,
        object(vec![
            ("name", number(5)),
            ("type", Value::Null),
            ("is_free", text("yes")),
            ("required_age", Value::Bool(true)),
            ("website", Value::Array(vec![])),
            ("support_info", text("none")),
            ("price_overview", Value::Array(vec![number(1)])),
            ("platforms", object(vec![("windows", number(1)), ("linux", Value::Bool(true))])),
            ("screenshots", object(vec![])),
            ("genres", text("Action")),
            ("movies", number(3)),
            ("package_groups", Value::Null),
            ("achievements", object(vec![("total", text("12")), ("highlighted", number(0))])),
            ("metacritic", object(vec![("score", text("88")), ("url", number(0))])),
            ("recommendations", object(vec![("total", Value::Number(Number::from_f64(1.5).unwrap()))])),
        ]),
    );
    let mut expected = blank(10);
    expected.platforms.linux = true;
    assert_eq!(app, expected);
}

#[test]
fn a_malformed_element_of_a_list_still_gives_an_element() {
    let app = fetched(
        10,
        object(vec![
            ("screenshots", Value::Array(vec![
                number(1),
                object(vec![("id", text("7")), ("path_full", text("full.jpg"))]),
            ])),
            ("categories", Value::Array(vec![object(vec![
                ("id", number(2)),
                ("description", text("Single-player")),
            ])])),
            ("genres", Value::Array(vec![object(vec![
                ("id", text("1")),
                ("description", text("Action")),
            ])])),
            ("demos", Value::Array(vec![object(vec![
                ("appid", number(219)),
                ("description", text("")),
            ])])),
        ]),
    );
    assert_eq!(
        app.screenshots,
        vec![
            Screenshot { path_thumbnail: String::new(), path_full: String::new(), id: 0 },
            Screenshot { path_thumbnail: String::new(), path_full: "full.jpg".to_string(), id: 0 },
        ]
    );
    assert_eq!(app.categories, vec![Category { id: 2, description: "Single-player".to_string() }]);
    assert_eq!(
        app.genres,
        vec![Genre { id: "1".to_string(), description: "Action".to_string() }]
    );
    assert_eq!(app.demos, vec![Demo { description: String::new(), appid: 219 }]);
}

#[test]
fn the_required_age_is_read_from_a_number_or_a_text() {
    let age = |value: Value| fetched(1, object(vec![("required_age", value)])).required_age;
    assert_eq!(age(number(17)), 17);
    assert_eq!(age(text("18")), 18);
    assert_eq!(age(text("+16")), 16);
    assert_eq!(age(text("eighteen")), 0);
    assert_eq!(age(text("")), 0);
    assert_eq!(age(text("99999999999999999999")), 0);
    assert_eq!(age(Value::Null), 0);
}

#[test]
fn the_display_type_is_read_from_a_text_or_a_number() {
    let display_type = |value: Value| {
        let group = object(vec![("display_type", value)]);
        let app = fetched(1, object(vec![("package_groups", Value::Array(vec![group]))]));
        app.package_groups.get(0).unwrap().display_type.clone()
    };
    assert_eq!(display_type(number(0)), "0");
    assert_eq!(display_type(number(-12)), "-12");
    assert_eq!(display_type(text("default")), "default");
    assert_eq!(display_type(Value::Bool(true)), "");
}

#[test]
fn every_element_of_package_groups_gives_a_group() {
    let group = |name: &str, packageid: i64| {
        object(vec![
            ("name", text(name)),
            ("subs", Value::Array(vec![object(vec![("packageid", number(packageid))])])),
        ])
    };
    let app = fetched(
        1,
        object(vec![(
            "package_groups",
            Value::Array(vec![group("default", 1), group("subscriptions", 2)]),
        )]),
    );
    assert_eq!(app.package_groups.len(), 2);
    assert_eq!(app.package_groups[0].name, "default");
    assert_eq!(app.package_groups[0].subs[0].packageid, 1);
    assert_eq!(app.package_groups[1].name, "subscriptions");
    assert_eq!(app.package_groups[1].subs[0].packageid, 2);
    let app = fetched(1, object(vec![("package_groups", Value::Array(vec![]))]));
    assert_eq!(app.package_groups.len(), 0);
}

#[test]
fn a_failed_response_is_unavailable_whatever_else_it_holds() {
    let body = "{\"570\":{\"success\":false}}".to_string();
    assert_eq!(
        store_steampowered_com::appdetails::parse_api_call_result(body, 570),
        Err(ApiError::UpstreamUnavailable)
    );
    let answer = object(vec![
        ("success", Value::Bool(false)),
        ("data", object(vec![("name", text("Dota 2")), ("required_age", number(18))])),
    ]);
    let mut map = serde_json::Map::new();
    map.insert("570".to_string(), answer);
    let body = serde_json::to_string(&Value::Object(map)).unwrap();
    assert_eq!(
        store_steampowered_com::appdetails::parse_api_call_result(body, 570),
        Err(ApiError::UpstreamUnavailable)
    );
}

#[test]
fn a_response_without_a_success_flag_is_malformed() {
    let malformed = Err(ApiError::MalformedResponse(
        "response does not say whether the request succeeded".to_string(),
    ));
    let parse = store_steampowered_com::appdetails::parse_api_call_result;
    assert_eq!(parse("{}".to_string(), 570), malformed);
    assert_eq!(parse("{\"730\":{\"success\":true}}".to_string(), 570), malformed);
    assert_eq!(parse("{\"570\":{\"data\":{}}}".to_string(), 570), malformed);
    assert_eq!(parse("{\"570\":{\"success\":\"true\"}}".to_string(), 570), malformed);
    assert_eq!(parse("[1,2]".to_string(), 570), malformed);
    assert_eq!(parse("null".to_string(), 570), malformed);
}

#[test]
fn a_response_that_is_no_json_is_malformed_with_the_parsers_message() {
    let parse = store_steampowered_com::appdetails::parse_api_call_result;
    let expected = serde_json::from_str::<Value>("{\"570\":").unwrap_err().to_string();
    assert_eq!(parse("{\"570\":".to_string(), 570), Err(ApiError::MalformedResponse(expected)));
    let expected = serde_json::from_str::<Value>("<html>").unwrap_err().to_string();
    assert_eq!(parse("<html>".to_string(), 570), Err(ApiError::MalformedResponse(expected)));
    assert!(matches!(parse(" ".to_string(), 570), Err(ApiError::MalformedResponse(_))));
}

#[test]
fn a_document_is_projected_as_its_text_is() {
    let doc = Json::Object(vec![(
        "440".to_string(),
        Json::Object(vec![
            ("success".to_string(), Json::Bool(true)),
            (
                "data".to_string(),
                Json::Object(vec![
                    ("name".to_string(), Json::Text("Team Fortress 2".to_string())),
                    ("required_age".to_string(), Json::Number(Some(0))),
                    ("is_free".to_string(), Json::Bool(true)),
                    (
                        "metacritic".to_string(),
                        Json::Object(vec![("score".to_string(), Json::Number(Some(92)))]),
                    ),
                    ("website".to_string(), Json::Number(None)),
                ]),
            ),
        ]),
    )]);
    let mut expected = blank(440);
    expected.name = "Team Fortress 2".to_string();
    expected.is_free = true;
    expected.metacritic.score = 92;
    assert_eq!(store_steampowered_com::appdetails::project(&doc, 440), Ok(expected));
    assert_eq!(
        store_steampowered_com::appdetails::project(&doc, 441),
        Err(ApiError::MalformedResponse(
            "response does not say whether the request succeeded".to_string()
        ))
    );
    let failed = Json::Object(vec![(
        "440".to_string(),
        Json::Object(vec![("success".to_string(), Json::Bool(false))]),
    )]);
    assert_eq!(
        store_steampowered_com::appdetails::project(&failed, 440),
        Err(ApiError::UpstreamUnavailable)
    );
}

#[test]
fn of_two_members_with_one_name_the_first_is_read() {
    let doc = Json::Object(vec![
        ("total".to_string(), Json::Number(Some(3))),
        ("total".to_string(), Json::Number(Some(4))),
    ]);
    assert_eq!(doc.integer_or_zero("total"), 3);
    assert_eq!(doc.get("total"), Some(&Json::Number(Some(3))));
    assert_eq!(doc.get("highlighted"), None);
    assert_eq!(Json::Null.get("total"), None);
    assert_eq!(doc.get_or("highlighted", &Json::Null), &Json::Null);
    assert_eq!(doc.text_or_empty("total"), "");
    assert_eq!(doc.flag_or_false("total"), false);
    assert_eq!(Json::Text("a".to_string()).as_str(), Some("a"));
    assert_eq!(Json::Number(Some(5)).as_i64(), Some(5));
    assert_eq!(Json::Number(None).as_i64(), None);
    assert_eq!(Json::Bool(true).as_bool(), Some(true));
    assert_eq!(Json::Array(vec![Json::Null]).as_array(), Some(&vec![Json::Null]));
    assert_eq!(Json::Null.as_array(), None);
}

#[test]
fn the_parts_of_a_record_are_read_on_their_own() {
    let achievements = Json::Object(vec![
        ("total".to_string(), Json::Number(Some(167))),
        (
            "highlighted".to_string(),
            Json::Array(vec![Json::Object(vec![
                ("name".to_string(), Json::Text("Someone Set Up Us The Bomb".to_string())),
                ("path".to_string(), Json::Text("a.jpg".to_string())),
            ])]),
        ),
    ]);
    assert_eq!(
        store_steampowered_com::appdetails::parse_achievements(&achievements),
        Achievement {
            total: 167,
            highlighted: vec![Highlight {
                path: "a.jpg".to_string(),
                name: "Someone Set Up Us The Bomb".to_string(),
            }],
        }
    );
    assert_eq!(
        store_steampowered_com::appdetails::parse_achievements(&Json::Null),
        Achievement { total: 0, highlighted: vec![] }
    );
    let movies = Json::Array(vec![Json::Object(vec![
        ("id".to_string(), Json::Number(Some(81958))),
        ("highlight".to_string(), Json::Bool(true)),
        (
            "webm".to_string(),
            Json::Object(vec![
                ("480".to_string(), Json::Text("small.webm".to_string())),
                ("max".to_string(), Json::Text("large.webm".to_string())),
                ("dash".to_string(), Json::Text("dash.webm".to_string())),
            ]),
        ),
        ("mp4".to_string(), Json::Object(vec![("480".to_string(), Json::Text("small.mp4".to_string()))])),
    ])]);
    assert_eq!(
        store_steampowered_com::appdetails::parse_movies(&movies),
        vec![Movie {
            thumbnail: String::new(),
            name: String::new(),
            id: 81958,
            highlight: true,
            webm: Webm {
                max: "large.webm".to_string(),
                dash: "dash.webm".to_string(),
                _480: "small.webm".to_string(),
            },
            mp4: Mp4 { max: String::new(), _480: "small.mp4".to_string() },
        }]
    );
    assert_eq!(store_steampowered_com::appdetails::parse_movies(&Json::Null), vec![]);
    let group = Json::Object(vec![
        ("title".to_string(), Json::Text("Buy".to_string())),
        ("display_type".to_string(), Json::Number(Some(1))),
        (
            "subs".to_string(),
            Json::Array(vec![Json::Object(vec![
                ("packageid".to_string(), Json::Number(Some(54029))),
                ("price_in_cents_with_discount".to_string(), Json::Number(Some(1499))),
                ("percent_savings".to_string(), Json::Number(Some(10))),
                ("percent_savings_text".to_string(), Json::Text("-10%".to_string())),
                ("option_text".to_string(), Json::Text("Prime".to_string())),
                ("option_description".to_string(), Json::Text("Upgrade".to_string())),
                ("can_get_free_license".to_string(), Json::Text("0".to_string())),
                ("is_free_license".to_string(), Json::Bool(true)),
            ])]),
        ),
    ]);
    let subs = vec![Sub {
        price_in_cents_with_discount: 1499,
        percent_savings_text: "-10%".to_string(),
        percent_savings: 10,
        packageid: 54029,
        option_text: "Prime".to_string(),
        option_description: "Upgrade".to_string(),
        is_free_license: true,
        can_get_free_license: "0".to_string(),
    }];
    assert_eq!(store_steampowered_com::appdetails::parse_package_groups_subs(&group), subs);
    assert_eq!(
        store_steampowered_com::appdetails::parse_package_groups(&Json::Array(vec![group])),
        vec![PackageGroup {
            title: "Buy".to_string(),
            selection_text: String::new(),
            save_text: String::new(),
            name: String::new(),
            is_recurring_subscription: String::new(),
            display_type: "1".to_string(),
            description: String::new(),
            subs,
        }]
    );
    assert_eq!(store_steampowered_com::appdetails::parse_package_groups_subs(&Json::Null), vec![]);
}

/// A record with a value in every field.
fn full_record() -> SteamAppDetails {
    SteamAppDetails {
        app_id: 730,
        name: "Counter-Strike: Global Offensive".to_string(),
        app_type: "game".to_string(),
        supported_languages: "English, Ukrainian".to_string(),
        support_info: SupportInfo {
            url: "https://help.steampowered.com".to_string(),
            email: "support@example.com".to_string(),
        },
        short_description: "Short".to_string(),
        screenshots: vec![
            Screenshot { path_thumbnail: "t0.jpg".to_string(), path_full: "f0.jpg".to_string(), id: 0 },
            Screenshot { path_thumbnail: "t1.jpg".to_string(), path_full: "f1.jpg".to_string(), id: 1 },
        ],
        reviews: "“Good.”".to_string(),
        required_age: 18,
        release_date: ReleaseDate { date: "Aug 21, 2012".to_string(), coming_soon: true },
        recommendations: Recommendations { total: 3452092 },
        price_overview: PriceOverview {
            recurring_sub_desc: "monthly".to_string(),
            recurring_sub: 414304,
            initial_formatted: "299₴".to_string(),
            initial: 29900,
            final_formatted: "279₴".to_string(),
            final_price: 27900,
            discount_percent: 7,
            currency: "UAH".to_string(),
        },
        platforms: Platforms { windows: true, mac: false, linux: true },
        pc_requirements: PcRequirements { recommended: "pc++".to_string(), minimum: "pc".to_string() },
        mac_requirements: MacRequirements {
            recommended: "mac++".to_string(),
            minimum: "mac".to_string(),
        },
        linux_requirements: LinuxRequirements {
            recommended: "linux++".to_string(),
            minimum: "linux".to_string(),
        },
        package_groups: vec![
            PackageGroup {
                title: "Buy".to_string(),
                selection_text: "Select".to_string(),
                save_text: "Save".to_string(),
                name: "default".to_string(),
                is_recurring_subscription: "false".to_string(),
                display_type: "0".to_string(),
                description: "Described".to_string(),
                subs: vec![Sub {
                    price_in_cents_with_discount: 1499,
                    percent_savings_text: "-10%".to_string(),
                    percent_savings: 10,
                    packageid: 54029,
                    option_text: "Prime".to_string(),
                    option_description: "Upgrade".to_string(),
                    is_free_license: true,
                    can_get_free_license: "0".to_string(),
                }],
            },
            PackageGroup {
                title: "Subscribe".to_string(),
                selection_text: "Pick".to_string(),
                save_text: "Keep".to_string(),
                name: "subscriptions".to_string(),
                is_recurring_subscription: "true".to_string(),
                display_type: "list".to_string(),
                description: "Monthly".to_string(),
                subs: vec![],
            },
        ],
        movies: vec![Movie {
            thumbnail: "movie.jpg".to_string(),
            name: "Trailer".to_string(),
            id: 81958,
            highlight: true,
            webm: Webm {
                max: "max.webm".to_string(),
                dash: "dash.webm".to_string(),
                _480: "480.webm".to_string(),
            },
            mp4: Mp4 { max: "max.mp4".to_string(), _480: "480.mp4".to_string() },
        }],
        metacritic: Metacritic { url: "https://www.metacritic.com".to_string(), score: 83 },
        legal_notice: "Legal".to_string(),
        is_free: true,
        genres: vec![Genre { id: "1".to_string(), description: "Action".to_string() }],
        fullgame: FullGame { name: "Full".to_string(), appid: "10".to_string() },
        ext_user_account_notice: "Account".to_string(),
        drm_notice: "DRM".to_string(),
        detailed_description: "Detailed".to_string(),
        header_image: "header.jpg".to_string(),
        demos: vec![Demo { description: "Demo".to_string(), appid: 219 }],
        controller_support: "full".to_string(),
        content_descriptors: ContentDescriptors { notes: "Violence".to_string() },
        categories: vec![Category { id: 2, description: "Single-player".to_string() }],
        website: "http://blog.counter-strike.net/".to_string(),
        background_raw: "raw.jpg".to_string(),
        background: "background.jpg".to_string(),
        alternate_appid: "731".to_string(),
        about_the_game: "About".to_string(),
        achievements: Achievement {
            total: 167,
            highlighted: vec![Highlight { path: "a.jpg".to_string(), name: "First".to_string() }],
        },
    }
}

fn list(items: Vec<Value>) -> Value {
    Value::Array(items)
}

/// The `data` member that states every field of a record.
fn written(record: &SteamAppDetails) -> Value {
    let two = |recommended: &String, minimum: &String| {
        object(vec![("recommended", text(recommended)), ("minimum", text(minimum))])
    };
    object(vec![
        ("name", text(&record.name)),
        ("type", text(&record.app_type)),
        ("supported_languages", text(&record.supported_languages)),
        ("support_info", object(vec![
            ("url", text(&record.support_info.url)),
            ("email", text(&record.support_info.email)),
        ])),
        ("short_description", text(&record.short_description)),
        ("screenshots", list(record.screenshots.iter().map(|s| object(vec![
            ("path_thumbnail", text(&s.path_thumbnail)),
            ("path_full", text(&s.path_full)),
            ("id", number(s.id)),
        ])).collect())),
        ("reviews", text(&record.reviews)),
        ("required_age", number(record.required_age)),
        ("release_date", object(vec![
            ("date", text(&record.release_date.date)),
            ("coming_soon", Value::Bool(record.release_date.coming_soon)),
        ])),
        ("recommendations", object(vec![("total", number(record.recommendations.total))])),
        ("price_overview", object(vec![
            ("recurring_sub_desc", text(&record.price_overview.recurring_sub_desc)),
            ("recurring_sub", number(record.price_overview.recurring_sub)),
            ("initial_formatted", text(&record.price_overview.initial_formatted)),
            ("initial", number(record.price_overview.initial)),
            ("final_formatted", text(&record.price_overview.final_formatted)),
            ("final", number(record.price_overview.final_price)),
            ("discount_percent", number(record.price_overview.discount_percent)),
            ("currency", text(&record.price_overview.currency)),
        ])),
        ("platforms", object(vec![
            ("windows", Value::Bool(record.platforms.windows)),
            ("mac", Value::Bool(record.platforms.mac)),
            ("linux", Value::Bool(record.platforms.linux)),
        ])),
        ("pc_requirements", two(&record.pc_requirements.recommended, &record.pc_requirements.minimum)),
        ("mac_requirements", two(&record.mac_requirements.recommended, &record.mac_requirements.minimum)),
        ("linux_requirements", two(&record.linux_requirements.recommended, &record.linux_requirements.minimum)),
        ("package_groups", list(record.package_groups.iter().map(|g| object(vec![
            ("title", text(&g.title)),
            ("selection_text", text(&g.selection_text)),
            ("save_text", text(&g.save_text)),
            ("name", text(&g.name)),
            ("is_recurring_subscription", text(&g.is_recurring_subscription)),
            ("display_type", text(&g.display_type)),
            ("description", text(&g.description)),
            ("subs", list(g.subs.iter().map(|s| object(vec![
                ("price_in_cents_with_discount", number(s.price_in_cents_with_discount)),
                ("percent_savings_text", text(&s.percent_savings_text)),
                ("percent_savings", number(s.percent_savings)),
                ("packageid", number(s.packageid)),
                ("option_text", text(&s.option_text)),
                ("option_description", text(&s.option_description)),
                ("is_free_license", Value::Bool(s.is_free_license)),
                ("can_get_free_license", text(&s.can_get_free_license)),
            ])).collect())),
        ])).collect())),
        ("movies", list(record.movies.iter().map(|m| object(vec![
            ("thumbnail", text(&m.thumbnail)),
            ("name", text(&m.name)),
            ("id", number(m.id)),
            ("highlight", Value::Bool(m.highlight)),
            ("webm", object(vec![
                ("max", text(&m.webm.max)),
                ("dash", text(&m.webm.dash)),
                ("480", text(&m.webm._480)),
            ])),
            ("mp4", object(vec![("max", text(&m.mp4.max)), ("480", text(&m.mp4._480))])),
        ])).collect())),
        ("metacritic", object(vec![
            ("url", text(&record.metacritic.url)),
            ("score", number(record.metacritic.score)),
        ])),
        ("legal_notice", text(&record.legal_notice)),
        ("is_free", Value::Bool(record.is_free)),
        ("genres", list(record.genres.iter().map(|g| object(vec![
            ("id", text(&g.id)),
            ("description", text(&g.description)),
        ])).collect())),
        ("fullgame", object(vec![
            ("name", text(&record.fullgame.name)),
            ("appid", text(&record.fullgame.appid)),
        ])),
        ("ext_user_account_notice", text(&record.ext_user_account_notice)),
        ("drm_notice", text(&record.drm_notice)),
        ("detailed_description", text(&record.detailed_description)),
        ("header_image", text(&record.header_image)),
        ("demos", list(record.demos.iter().map(|d| object(vec![
            ("description", text(&d.description)),
            ("appid", number(d.appid)),
        ])).collect())),
        ("controller_support", text(&record.controller_support)),
        ("content_descriptors", object(vec![("notes", text(&record.content_descriptors.notes))])),
        ("categories", list(record.categories.iter().map(|c| object(vec![
            ("id", number(c.id)),
            ("description", text(&c.description)),
        ])).collect())),
        ("website", text(&record.website)),
        ("background_raw", text(&record.background_raw)),
        ("background", text(&record.background)),
        ("alternate_appid", text(&record.alternate_appid)),
        ("about_the_game", text(&record.about_the_game)),
        ("achievements", object(vec![
            ("total", number(record.achievements.total)),
            ("highlighted", list(record.achievements.highlighted.iter().map(|h| object(vec![
                ("path", text(&h.path)),
                ("name", text(&h.name)),
            ])).collect())),
        ])),
    ])
}

#[test]
fn a_record_that_is_written_out_is_read_back() {
    let record = full_record();
    let body = response(record.app_id, written(&record));
    assert_eq!(
        store_steampowered_com::appdetails::parse_api_call_result(body, record.app_id),
        Ok(record)
    );
    let record = blank(5);
    let body = response(5, written(&record));
    assert_eq!(store_steampowered_com::appdetails::parse_api_call_result(body, 5), Ok(record));
}

#[test]
fn a_fetch_stores_the_response_as_it_came() {
    let body = response(570, object(vec![("name", text("Dota 2"))]));
    let fetched = store_steampowered_com::appdetails::get(570, Ok(body.clone()));
    assert_eq!(fetched.result.unwrap().name, "Dota 2");
    assert_eq!(
        fetched.write,
        Some(CacheWrite {
            directory: "steam-webapi-cache/steampowered/appdetails/0/570/".to_string(),
            filepath: "steam-webapi-cache/steampowered/appdetails/0/570/570.json".to_string(),
            contents: body,
        })
    );
}

#[test]
fn a_failed_response_is_stored_too() {
    let body = "{\"999999\":{\"success\":false}}".to_string();
    let fetched = store_steampowered_com::appdetails::get(999999, Ok(body.clone()));
    assert_eq!(fetched.result, Err(ApiError::UpstreamUnavailable));
    let write = fetched.write.unwrap();
    assert_eq!(write.contents, body);
    assert_eq!(write.filepath, "steam-webapi-cache/steampowered/appdetails/99/999999/999999.json");
    match store_steampowered_com::appdetails::get_cached(999999, Some(write.contents)) {
        Cached::Hit(result) => assert_eq!(result, Err(ApiError::UpstreamUnavailable)),
        Cached::Miss(_) => panic!("a file was there"),
    }
}

#[test]
fn what_could_not_be_fetched_or_parsed_is_not_stored() {
    let get = store_steampowered_com::appdetails::get;
    let fetched = get(570, Err(ApiError::TransportTimeout));
    assert_eq!(fetched.result, Err(ApiError::TransportTimeout));
    assert_eq!(fetched.write, None);
    let fetched = get(570, Err(ApiError::InvalidEncoding));
    assert_eq!(fetched.result, Err(ApiError::InvalidEncoding));
    assert_eq!(fetched.write, None);
    let fetched = get(570, Ok("<html>Too Many Requests</html>".to_string()));
    assert!(matches!(fetched.result, Err(ApiError::MalformedResponse(_))));
    assert_eq!(fetched.write, None);
    let fetched = get(570, Ok("{\"571\":{\"success\":true}}".to_string()));
    assert!(matches!(fetched.result, Err(ApiError::MalformedResponse(_))));
    assert_eq!(fetched.write, None);
}

#[test]
fn a_second_lookup_reads_what_the_first_one_fetched() {
    let app_id = 570;
    let mut file: Option<String> = None;
    let mut fetches = 0;
    let mut records = vec![];
    for _ in 0..2 {
        let record = match store_steampowered_com::appdetails::get_cached(app_id, file.clone()) {
            Cached::Hit(result) => result,
            Cached::Miss(request) => {
                assert_eq!(
                    request,
                    FetchRequest {
                        url: "https://store.steampowered.com/api/appdetails?appids=570&lang=en"
                            .to_string(),
                        filepath: "steam-webapi-cache/steampowered/appdetails/0/570/570.json"
                            .to_string(),
                    }
                );
                fetches += 1;
                let body = response(app_id, object(vec![("name", text("Dota 2"))]));
                let fetched = store_steampowered_com::appdetails::get(app_id, Ok(body));
                if let Some(write) = fetched.write {
                    assert_eq!(write.filepath, request.filepath);
                    file = Some(write.contents);
                }
                fetched.result
            },
        };
        records.push(record);
    }
    assert_eq!(fetches, 1);
    assert_eq!(records[0], records[1]);
    assert_eq!(records[0].as_ref().unwrap().name, "Dota 2");
}

#[test]
fn an_empty_file_gives_a_blank_record() {
    match store_steampowered_com::appdetails::get_cached(570, Some(String::new())) {
        Cached::Hit(result) => assert_eq!(result, Ok(blank(570))),
        Cached::Miss(_) => panic!("a file was there"),
    }
}

#[test]
fn a_number_that_is_no_64_bit_integer_reads_as_zero() {
    let body = "{\"5\":{\"success\":true,\"data\":{\"required_age\":18446744073709551615,\"recommendations\":{\"total\":1e3},\"metacritic\":{\"score\":-9223372036854775808}}}}".to_string();
    let app = store_steampowered_com::appdetails::parse_api_call_result(body, 5).unwrap();
    assert_eq!(app.required_age, 0);
    assert_eq!(app.recommendations.total, 0);
    assert_eq!(app.metacritic.score, i64::MIN);
}

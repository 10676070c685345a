use momir_oracle::cards::{
    has_word, parse_legalities, parse_legality, CardFace, CardLayout, CoreCardFields, FormatLegality,
    OracleScryfallCard, Prices, PrintFields, RelatedCard, ScryfallCard,
};
use momir_oracle::card_list::{ScryfallCardList, ScryfallPageResponse};
use momir_oracle::client::{attach_set_icon, card_url, request_delay, set_url, user_agent_or_default, RequestGate};
use momir_oracle::console::{decimal, ConsoleMessage};
use momir_oracle::melds::melds_from_results;
use momir_oracle::oracle::{collect_creatures, filters_from_checks, OracleCards, OracleFilter, OracleFilters};
use momir_oracle::print::{adventure_elements, face_elements, shape_of, side_by_side, two_faces, CardImage, Element, FaceChoice, PrintShape};
use momir_oracle::printers::CardType;
use momir_oracle::sets::{ScryfallSet, ScryfallSetType, ScryfallSets};

fn mk_core(id: &str, name: &str, type_line: Option<&str>, cmc: Option<f64>, layout: CardLayout) -> CoreCardFields {
    CoreCardFields {
        id: id.to_string(),
        oracle_id: None,
        name: name.to_string(),
        lang: "en".to_string(),
        released_at: None,
        uri: String::new(),
        scryfall_uri: String::new(),
        layout,
        mana_cost: Some("{1}{G}".to_string()),
        cmc: cmc.map(|c| c.to_bits()),
        type_line: type_line.map(|t| t.to_string()),
        oracle_text: Some("Trample".to_string()),
        power: Some("2".to_string()),
        toughness: Some("3".to_string()),
        loyalty: None,
        defense: None,
        colors: None,
        color_identity: vec![],
        color_indicator: None,
        keywords: vec![],
        legalities: vec![],
        reserved: false,
        game_changer: None,
        life_modifier: None,
        hand_modifier: None,
        set_id: "set-1".to_string(),
        set: "neo".to_string(),
        set_name: "Kamigawa".to_string(),
        set_type: "expansion".to_string(),
        set_uri: String::new(),
        set_search_uri: String::new(),
        set_icon_svg_uri: None,
        scryfall_set_uri: String::new(),
        rulings_uri: String::new(),
        prints_search_uri: String::new(),
        all_parts: None,
        card_faces: None,
    }
}

fn print() -> PrintFields {
    PrintFields {
        multiverse_ids: None,
        mtgo_id: None,
        mtgo_foil_id: None,
        tcgplayer_id: None,
        cardmarket_id: None,
        highres_image: false,
        image_status: String::new(),
        image_updated_at: None,
        image_uris: None,
        collector_number: "17".to_string(),
        digital: false,
        rarity: "common".to_string(),
        watermark: None,
        flavor_text: None,
        card_back_id: None,
        artist: Some("Rebecca Guay".to_string()),
        artist_ids: None,
        illustration_id: None,
        border_color: "black".to_string(),
        frame: "2015".to_string(),
        frame_effects: None,
        security_stamp: None,
        full_art: false,
        textless: false,
        booster: true,
        story_spotlight: false,
        edhrec_rank: None,
        penny_rank: None,
        games: vec![],
        finishes: vec![],
        foil: false,
        nonfoil: true,
        oversized: false,
        promo: false,
        reprint: false,
        variation: false,
        prices: Prices { usd: None, usd_foil: None, usd_etched: None, eur: None, eur_foil: None, tix: None },
        related_uris: vec![],
        purchase_uris: None,
        preview: None,
    }
}

fn card(id: &str, name: &str, type_line: Option<&str>, cmc: Option<f64>) -> OracleScryfallCard {
    OracleScryfallCard { core: mk_core(id, name, type_line, cmc, CardLayout::Normal), print: print() }
}

fn face(name: &str, type_line: &str, text: &str, cost: Option<&str>) -> CardFace {
    CardFace {
        object: "card_face".to_string(),
        name: name.to_string(),
        mana_cost: cost.map(|c| c.to_string()),
        type_line: Some(type_line.to_string()),
        oracle_text: Some(text.to_string()),
        colors: None,
        power: None,
        toughness: None,
        loyalty: None,
        defense: None,
        flavor_text: None,
        illustration_id: None,
        image_uris: None,
    }
}

fn set(id: &str, code: &str, icon: &str) -> ScryfallSet {
    ScryfallSet {
        object: "set".to_string(),
        id: id.to_string(),
        code: code.to_string(),
        mtgo_code: None,
        arena_code: None,
        tcgplayer_id: None,
        name: code.to_uppercase(),
        set_type: ScryfallSetType::Expansion,
        released_at: None,
        block_code: None,
        parent_set_code: None,
        card_count: 10,
        printed_size: None,
        digital: false,
        foil_only: false,
        nonfoil_only: false,
        scryfall_uri: String::new(),
        uri: String::new(),
        icon_svg_uri: icon.to_string(),
        search_uri: String::new(),
    }
}

#[test]
fn type_words_are_whole_words() {
    let c = card("a", "Llanowar Elves", Some("Creature — Elf Druid"), Some(1.0));
    assert!(c.is_creature());
    assert!(!c.is_planeswalker());
    assert!(!c.is_omen());
    assert!(c.has_type_word("Elf"));
    assert!(!c.has_type_word("El"));
    assert!(has_word("Legendary  Creature\tGod", "God"));
    let none = card("b", "Nameless", None, None);
    assert!(!none.is_creature());
}

#[test]
fn legality_words() {
    assert_eq!(parse_legality("legal"), Ok(true));
    assert_eq!(parse_legality("restricted"), Ok(true));
    assert_eq!(parse_legality("not_legal"), Ok(false));
    assert_eq!(parse_legality("banned"), Ok(false));
    assert_eq!(parse_legality("sideboard"), Err("unknown legality value: sideboard".to_string()));
}

#[test]
fn legalities_read_all_or_fail() {
    let ok = vec![(FormatLegality::Modern, "legal".to_string()), (FormatLegality::Vintage, "restricted".to_string()),
        (FormatLegality::Legacy, "banned".to_string())];
    assert_eq!(parse_legalities(&ok), Ok(vec![(FormatLegality::Modern, true), (FormatLegality::Vintage, true),
        (FormatLegality::Legacy, false)]));
    let bad = vec![(FormatLegality::Modern, "legal".to_string()), (FormatLegality::Pauper, "maybe".to_string())];
    assert_eq!(parse_legalities(&bad), Err("unknown legality value: maybe".to_string()));
}

#[test]
fn card_layout_names() {
    assert_eq!(CardLayout::ModalDFC.as_str(), "modal_dfc");
    assert_eq!(CardLayout::DoubleFacedToken.as_str(), "double_faced_token");
    assert_eq!(CardLayout::Normal.as_str(), "normal");
}

#[test]
fn filters_come_from_unticked_boxes() {
    assert_eq!(filters_from_checks(true, true, true, true, true), None);
    let f = filters_from_checks(true, false, true, false, true).unwrap();
    assert_eq!(f.filters, vec![OracleFilter::Modern, OracleFilter::Unsets]);
    assert_eq!(OracleFilters::new().filters, vec![]);
    assert_eq!(OracleFilters::from_vec(vec![OracleFilter::Premodern]).filters, vec![OracleFilter::Premodern]);
    assert_eq!(OracleFilter::Unsets.as_str(), "Unsets");
}

#[test]
fn only_creatures_are_kept() {
    let cards = vec![
        card("a", "Grizzly Bears", Some("Creature — Bear"), Some(2.0)),
        card("b", "Shock", Some("Instant"), Some(1.0)),
        card("c", "Dryad Arbor", Some("Land Creature — Forest Dryad"), Some(0.0)),
    ];
    let kept = collect_creatures(cards);
    let ids: Vec<&str> = kept.iter().map(|c| c.core.id.as_str()).collect();
    assert_eq!(ids, vec!["a", "c"]);
}

#[test]
fn random_creature_has_the_cost_asked() {
    let cards = vec![
        card("a", "Grizzly Bears", Some("Creature — Bear"), Some(2.0)),
        card("b", "Elvish Visionary", Some("Creature — Elf"), Some(2.0)),
        card("c", "Colossal Dreadmaw", Some("Creature — Dinosaur"), Some(6.0)),
        card("d", "Divination", Some("Sorcery"), Some(3.0)),
    ];
    let oracle = OracleCards::from_cards(collect_creatures(cards), vec!["b".to_string()]);
    let mut seen = std::collections::HashSet::new();
    for _ in 0..200 {
        let pick = oracle.random_creature_by_cmc(2.0f64.to_bits(), None).unwrap();
        assert!(pick.core.id == "a" || pick.core.id == "b");
        seen.insert(pick.core.id.clone());
    }
    assert_eq!(seen.len(), 2);
    let no_unsets = OracleFilters::from_vec(vec![OracleFilter::Unsets]);
    for _ in 0..20 {
        let pick = oracle.random_creature_by_cmc(2.0f64.to_bits(), Some(&no_unsets)).unwrap();
        assert_eq!(pick.core.id, "a");
    }
    assert_eq!(oracle.random_creature_by_cmc(6.0f64.to_bits(), None).unwrap().core.id, "c");
    assert!(oracle.random_creature_by_cmc(3.0f64.to_bits(), None).is_none());
    assert!(oracle.random_creature_by_cmc(7.0f64.to_bits(), None).is_none());
    assert_eq!(oracle.named("Colossal Dreadmaw").unwrap().core.id, "c");
    assert!(oracle.named("Divination").is_none());
    assert!(OracleCards::default().random_creature_by_cmc(2.0f64.to_bits(), None).is_none());
}

#[test]
fn sets_hold_each_set_once() {
    let mut sets = ScryfallSets::default();
    assert!(sets.is_empty());
    assert!(sets.insert(set("1", "neo", "https://svgs/neo.svg")));
    assert!(sets.insert(set("2", "dmu", "https://svgs/dmu.svg")));
    assert!(!sets.insert(set("1", "neo", "https://svgs/neo.svg")));
    assert_eq!(sets.len(), 2);
    assert!(!sets.is_empty());
    assert_eq!(sets.iter().count(), 2);
    assert_eq!(sets.get_set_from_id("2").unwrap().code, "dmu");
    assert!(sets.get_set_from_id("3").is_none());
    assert_eq!(sets.get_svg_uri_from_id("1").unwrap(), "https://svgs/neo.svg");
    assert!(sets.get_svg_uri_from_id("9").is_none());
    assert!(sets.insert(set("2", "bro", "https://svgs/bro.svg")));
    assert_eq!(sets.len(), 3);
    assert_eq!(sets.get_set_from_id("2").unwrap().code, "dmu");
    assert_eq!(sets.get_svg_uri_from_id("2").unwrap(), "https://svgs/dmu.svg");
}

#[test]
fn set_icon_is_attached_from_known_sets() {
    let sets = ScryfallSets::from_vec(vec![set("set-1", "neo", "https://svgs/neo.svg")]);
    let mut c = card("a", "Grizzly Bears", Some("Creature — Bear"), Some(2.0));
    attach_set_icon(&mut c, &sets);
    assert_eq!(c.core.set_icon_svg_uri.as_deref(), Some("https://svgs/neo.svg"));
    let mut d = card("b", "Shock", Some("Instant"), Some(1.0));
    d.core.set_id = "unknown".to_string();
    attach_set_icon(&mut d, &sets);
    assert_eq!(d.core.set_icon_svg_uri, None);
}

#[test]
fn scryfall_addresses() {
    assert_eq!(card_url("08b9a296-3b76-4f8f-9d71-7c9af92bb3b4"),
        "https://api.scryfall.com/cards/08b9a296-3b76-4f8f-9d71-7c9af92bb3b4");
    assert_eq!(set_url("neo"), "https://api.scryfall.com/sets//neo");
    assert_eq!(set_url("a b/c"), "https://api.scryfall.com/sets//a%20b%2Fc");
    assert_eq!(user_agent_or_default(None), "oracle_scryfall_rs/0.1.0");
    assert_eq!(user_agent_or_default(Some("momir_basic_rs/v0.1")), "momir_basic_rs/v0.1");
}

#[test]
fn requests_are_half_a_second_apart() {
    assert_eq!(request_delay(0), 500_000_000);
    assert_eq!(request_delay(123_000_000), 377_000_000);
    assert_eq!(request_delay(500_000_000), 0);
    assert_eq!(request_delay(9_000_000_000), 0);
}

#[test]
fn the_gate_spaces_requests() {
    let mut gate = RequestGate::new();
    assert_eq!(gate.delay(7), 0);
    gate.passed(7);
    assert_eq!(gate.last_pass, Some(7));
    assert_eq!(gate.delay(100_000_007), 400_000_000);
    gate.passed(500_000_007);
    assert_eq!(gate.delay(500_000_007), 500_000_000);
    assert_eq!(gate.delay(1_200_000_000), 0);
    assert_eq!(gate.delay(3), 500_000_000);
}

#[test]
fn search_pages_are_gathered_in_order() {
    let first = ScryfallPageResponse {
        object: "list".to_string(),
        total_cards: Some(3),
        has_more: true,
        next_page: Some("https://next".to_string()),
        data: vec![ScryfallCard { core: mk_core("a", "A", None, None, CardLayout::Normal), print: print() }],
    };
    assert_eq!(first.next_page_link().map(|s| s.as_str()), Some("https://next"));
    let mut list = ScryfallCardList::from_first_page(first);
    let second = ScryfallPageResponse {
        object: "list".to_string(),
        total_cards: Some(99),
        has_more: false,
        next_page: Some("https://ignored".to_string()),
        data: vec![
            ScryfallCard { core: mk_core("b", "B", None, None, CardLayout::Normal), print: print() },
            ScryfallCard { core: mk_core("c", "C", None, None, CardLayout::Normal), print: print() },
        ],
    };
    assert_eq!(second.next_page_link(), None);
    list.add_page(second);
    assert_eq!(list.total_cards, Some(3));
    assert_eq!(list.card_ids(), vec!["a", "b", "c"]);
    assert_eq!(list.into_card_ids(), vec!["a", "b", "c"]);
}

#[test]
fn meld_parts_are_numbered_from_one() {
    let part = |id: &str, component: &str| RelatedCard {
        object: "related_card".to_string(),
        id: id.to_string(),
        component: component.to_string(),
        name: id.to_string(),
        type_line: String::new(),
        uri: String::new(),
    };
    let mut result = ScryfallCard { core: mk_core("r", "Brisela", None, None, CardLayout::Meld), print: print() };
    result.core.all_parts = Some(vec![part("x", "meld_part"), part("r", "meld_result"), part("y", "meld_part")]);
    let melds = melds_from_results(&vec![result]);
    assert_eq!(melds.melds.len(), 1);
    assert_eq!(melds.melds[0].result_id, "r");
    let kids: Vec<(&str, u8)> = melds.melds[0].children.iter().map(|c| (c.id.as_str(), c.position)).collect();
    assert_eq!(kids, vec![("x", 1), ("y", 2)]);
}

#[test]
fn momir_messages() {
    match ConsoleMessage::momir(None, 7) {
        ConsoleMessage::Text { sender, body } => {
            assert_eq!(sender, "Momir");
            assert_eq!(body, "No creature found for CMC 7");
        }
        _ => panic!("expected a text message"),
    }
    match ConsoleMessage::momir(Some(card("a", "Grizzly Bears", Some("Creature — Bear"), Some(2.0))), 2) {
        ConsoleMessage::Card { sender, card } => {
            assert_eq!(sender, "Momir");
            assert_eq!(card.core.id, "a");
        }
        _ => panic!("expected a card message"),
    }
    match ConsoleMessage::system("Game initialized.") {
        ConsoleMessage::Text { sender, body } => {
            assert_eq!(sender, "System");
            assert_eq!(body, "Game initialized.");
        }
        _ => panic!("expected a text message"),
    }
}

#[test]
fn decimal_matches_display() {
    for n in [0, 7, 10, 16, -1, -42, 1234567, i32::MAX, i32::MIN] {
        assert_eq!(decimal(n), n.to_string());
    }
}

#[test]
fn card_types_follow_layout_and_omens() {
    let mut omen = card("o", "Omen of the Sea", Some("Enchantment — Omen"), Some(2.0));
    omen.core.layout = CardLayout::ModalDFC;
    assert!(matches!(CardType::of(omen), CardType::Omen(_)));
    let layouts = [
        (CardLayout::ModalDFC, "mdfc"),
        (CardLayout::Transform, "mdfc"),
        (CardLayout::Split, "mdfc"),
        (CardLayout::Adventure, "adventure"),
        (CardLayout::Prepare, "prepare"),
        (CardLayout::Normal, "regular"),
        (CardLayout::Saga, "regular"),
    ];
    for (layout, want) in layouts {
        let mut c = card("c", "C", Some("Creature"), Some(1.0));
        c.core.layout = layout;
        let got = match CardType::of(c) {
            CardType::Regular(_) => "regular",
            CardType::MDFC(_) => "mdfc",
            CardType::Adventure(_) => "adventure",
            CardType::Omen(_) => "omen",
            CardType::Prepare(_) => "prepare",
        };
        assert_eq!(got, want);
    }
}

#[test]
fn print_shapes_and_faces() {
    let c = card("c", "C", Some("Creature"), Some(1.0));
    assert_eq!(shape_of(&CardType::Omen(c.clone())).0, PrintShape::Adventure);
    assert_eq!(shape_of(&CardType::MDFC(c.clone())).0, PrintShape::SideBySide);
    assert_eq!(shape_of(&CardType::Regular(c.clone())).0, PrintShape::Single);
    assert_eq!(two_faces(&c).unwrap_err(), "No card faces");
    let mut one = c.clone();
    one.core.card_faces = Some(vec![face("A", "Creature", "", None)]);
    assert_eq!(two_faces(&one).unwrap_err(), "Expected at least 2 faces");
    let mut three = c.clone();
    three.core.card_faces = Some(vec![face("A", "T", "", None), face("B", "T", "", None), face("C", "T", "", None)]);
    assert_eq!(two_faces(&three).unwrap_err(), "Expected only 2 faces");
    let mut two = c.clone();
    two.core.card_faces = Some(vec![face("A", "T", "", None), face("B", "T", "", None)]);
    let (a, b) = two_faces(&two).unwrap();
    assert_eq!((a.name.as_str(), b.name.as_str()), ("A", "B"));
    assert_eq!(side_by_side(416), (852, 436));
    assert_eq!(face_elements().first(), Some(&Element::CardArt));
    assert_eq!(face_elements().last(), Some(&Element::Border));
    assert_eq!(adventure_elements()[4], (FaceChoice::Main, Element::OracleAdventureText));
    let img = CardImage::new(c.clone());
    assert_eq!(img.scryfall_id, "c");
    assert_eq!(img.card_ref().core.name, "C");
}

use momir_oracle::game::GameManager;
use momir_oracle::logs::{is_log_file, logs_to_remove};
use momir_oracle::layout::{get_font, Font, Layout, NameStyle, WrapStyle};
use momir_oracle::meld::{MeldLayout, MeldNameRenderer, MeldOracleTextRenderer, MeldSetCodeRenderer, MeldTypeLineRenderer};
use momir_oracle::printers::{OracleNetworkPrinter, OracleUsbPrinter, PrinterError};
use momir_oracle::config::{default_server_config, AppConfig, PrintMethod, PrinterConfig, ServerConfig};
use momir_oracle::renderers::{
    ArtistRenderer, BorderRenderer, CardArtRenderer, Frame, ManaCostRenderer, MeldBackCardArtRenderer, NameRenderer,
    OracleAdventureTextRenderer, OracleTextRenderer, PowerToughnessRenderer, SetCodeRenderer, SetIconRenderer,
    TypeLineRenderer,
};
use momir_oracle::split::{
    SplitCardArtRenderer, SplitCostRenderer, SplitIconStyle, SplitLayout, SplitNameRenderer, SplitOracleTextRenderer,
    SplitSetIconRenderer, SplitTextStyle, SplitTypeLineRenderer,
};
use momir_oracle::typeset::Extent;
use momir_oracle::cache::{download_file_name, extract_updated_at, is_stale_oracle_file, plan_cache, CachePlan};
use momir_oracle::bulk_data::{find_oracle_cards, BulkData};
use momir_oracle::catalog::ScryfallCatalog;
use momir_oracle::layout::{ArtLayout, SvgLayout, TextStyle};

fn w(whole: u32, partial: bool) -> Extent {
    Extent { whole, partial }
}

fn config(host: Option<&str>, port: Option<u16>, usb: Option<&str>) -> AppConfig {
    AppConfig {
        printer: PrinterConfig {
            host: host.map(|h| h.to_string()),
            port,
            usb_path: usb.map(|u| u.to_string()),
            print_method: Some(PrintMethod::Network),
        },
        server: ServerConfig {
            host: "0.0.0.0".to_string(),
            port: 8080,
            scryfall_user_agent: "momir_basic_rs/v0.1".to_string(),
            cache_dir: None,
        },
    }
}

#[test]
fn games_started_are_known() {
    let mut games = GameManager::new();
    assert!(!games.game_exists("nope"));
    let a = games.new_game();
    let b = games.new_game();
    assert_ne!(a, b);
    assert_eq!(a.len(), 36);
    assert_eq!(a.chars().filter(|c| *c == '-').count(), 4);
    assert!(games.game_exists(&a));
    assert!(games.game_exists(&b));
    assert_eq!(games.list(), vec![a, b]);
}

#[test]
fn printers_come_from_the_configuration() {
    let n = OracleNetworkPrinter::from_config(&config(Some("192.168.2.47"), Some(9100), None)).unwrap();
    assert_eq!((n.host(), n.port()), ("192.168.2.47", 9100));
    assert!(OracleNetworkPrinter::from_config(&config(Some("h"), None, None)).is_none());
    assert!(OracleNetworkPrinter::from_config(&config(None, Some(1), None)).is_none());
    let m = OracleNetworkPrinter::new("printer.local".to_string(), 9100);
    assert_eq!(m.host(), "printer.local");
    let u = OracleUsbPrinter::from_config(&config(None, None, Some("/dev/usb/lp0"))).unwrap();
    assert_eq!(u.path(), "/dev/usb/lp0");
    assert!(OracleUsbPrinter::from_config(&config(None, None, None)).is_none());
    assert!(!OracleUsbPrinter::new("/surely/not/a/device/here".to_string()).check_connection());
    assert!(OracleUsbPrinter::new("/".to_string()).check_connection());
    assert_eq!(PrinterError::Render("no font".to_string()).message(), "Failed to render card: no font");
    assert_eq!(PrinterError::Print("offline".to_string()).message(), "Failed to print card: offline");
}

#[test]
fn fonts_by_typeface() {
    assert_eq!(get_font(Font::Serif), "Mplantin.ttf");
    assert_eq!(get_font(Font::Sansserif), "tahoma.ttf");
}

#[test]
fn long_names_of_unsets_wrap_round_the_border() {
    let l = Layout::default();
    let threshold = l.border_path.bottom_threshold() as u32;
    let cases = [
        (false, w(300, false), w(0, false), NameStyle::Standard, WrapStyle::Standard),
        (true, w(372, true), w(380, false), NameStyle::LongName, WrapStyle::Standard),
        (true, w(400, false), w(383, false), NameStyle::LongName, WrapStyle::SemiWrap),
        (false, w(400, false), w(383, false), NameStyle::LongName, WrapStyle::Standard),
        (true, w(900, false), w(threshold, true), NameStyle::LongName, WrapStyle::FullWrap),
        (false, w(900, false), w(threshold, true), NameStyle::LongName, WrapStyle::Standard),
    ];
    for (funny, name, long, ns, ws) in cases {
        let mut layout = Layout::default();
        let got = NameRenderer::arrange(&mut layout, funny, name, long);
        assert_eq!(got, ws);
        let mut expected = Layout::default();
        ns.apply_layout_adjustments(&mut expected);
        ws.apply_layout_adjustments(&mut expected);
        assert_eq!(layout, expected);
    }
    let mut c = card("a", "Name", Some("Creature"), Some(1.0));
    assert!(!NameRenderer::is_funny(&c));
    c.core.set_type = "funny".to_string();
    assert!(NameRenderer::is_funny(&c));
    let d = NameRenderer::along_top(&l, &c.core.name);
    assert_eq!((d.text.as_str(), d.x, d.y, d.font_size), ("Name", 20, 35, 68));
    let f = face("Face Name", "Creature", "", None);
    assert_eq!(NameRenderer::name(&c, Some(&f)), "Face Name");
    assert_eq!(NameRenderer::name(&c, None), "Name");
}

#[test]
fn mana_cost_hugs_the_right_edge() {
    let l = Layout::default();
    let c = card("a", "Bears", Some("Creature"), Some(2.0));
    let cost = ManaCostRenderer::cost(&c, None).unwrap();
    let d = ManaCostRenderer::plan(&l, cost, w(60, true), w(50, false));
    assert_eq!((d.text.as_str(), d.x, d.y, d.font_size), ("{1}{G}", 416 - 60 - 26, 55, 36));
    let long = ManaCostRenderer::plan(&l, cost, w(120, true), w(95, true));
    assert_eq!((long.x, long.font_size), (416 - 95 - 26, 28));
    let f = face("F", "Creature", "", Some("{W}"));
    assert_eq!(ManaCostRenderer::cost(&c, Some(&f)).unwrap(), "{W}");
    let bare = face("F", "Creature", "", None);
    assert_eq!(ManaCostRenderer::cost(&c, Some(&bare)).unwrap(), "{1}{G}");
}

#[test]
fn type_line_and_rules_text() {
    let mut l = Layout::default();
    let c = card("a", "Bears", Some("Creature — Bear"), Some(2.0));
    let t = TypeLineRenderer::plan(&l, &c, None);
    assert_eq!((t.text.as_str(), t.x, t.y, t.font_size), ("Creature — Bear", 20, 310, 36));
    let r = OracleTextRenderer::plan(&l, &c, None);
    assert_eq!((r.text.as_str(), r.x, r.y), ("Trample", 20, 344));
    l.type_line_end_y = 360;
    assert_eq!(OracleTextRenderer::plan(&l, &c, None).y, 360);
    let f = face("F", "Instant — Adventure", "Draw a card.", None);
    assert_eq!(OracleTextRenderer::plan(&l, &c, Some(&f)).text, "Draw a card.");
    let none = card("b", "B", None, None);
    assert_eq!(TypeLineRenderer::plan(&l, &none, None).text, "");
}

#[test]
fn adventure_columns() {
    let l = Layout::default();
    let mut c = card("a", "Bonecrusher Giant", Some("Creature — Giant"), Some(3.0));
    c.core.oracle_text = Some("Whenever this becomes the target...".to_string());
    c.core.card_faces = Some(vec![
        face("Bonecrusher Giant", "Creature — Giant", "Main text", Some("{2}{R}")),
        face("Stomp", "Instant — Adventure", "Damage can't be prevented.", Some("{1}{R}")),
    ]);
    let main = c.core.card_faces.as_ref().unwrap()[0].clone();
    assert_eq!(OracleAdventureTextRenderer::adventure_text_size(&l, 5), 32);
    assert_eq!(OracleAdventureTextRenderer::adventure_text_size(&l, 6), 30);
    assert_eq!(OracleAdventureTextRenderer::cost_size(&l, w(40, false)), 28);
    let p = OracleAdventureTextRenderer::plan(&l, &c, Some(&main), 6, 1, 2, w(40, false), 1);
    assert_eq!((p.rule_x, p.rule_y, p.rule_length, p.rule_thickness), (208, 344, 180, 2));
    assert_eq!((p.main_text.text.as_str(), p.main_text.x, p.main_text.y), ("Main text", 224, 344));
    assert_eq!((p.kind.text.as_str(), p.kind.x, p.kind.y), ("Instant — Adventure", 20, 344));
    assert_eq!((p.name.text.as_str(), p.name.y), ("Stomp", 344 + 20));
    let cost = p.cost.unwrap();
    assert_eq!((cost.text.as_str(), cost.x, cost.y, cost.font_size), ("{1}{R}", 20, 364 + 40, 28));
    assert_eq!((p.text.text.as_str(), p.text.y, p.text.font_size), ("Damage can't be prevented.", 404 + 18, 30));
    let mut plain = c.clone();
    plain.core.card_faces.as_mut().unwrap()[1].mana_cost = None;
    let q = OracleAdventureTextRenderer::plan(&l, &plain, None, 1, 1, 1, w(0, false), 0);
    assert!(q.cost.is_none());
    assert_eq!((q.main_text.text.as_str(), q.text.y, q.text.font_size), ("Whenever this becomes the target...", 404, 32));
}

#[test]
fn artist_credit_moves_up_when_wrapped() {
    let l = Layout::default();
    let c = card("a", "Bears", Some("Creature"), Some(2.0));
    let d = ArtistRenderer::plan(&l, &c, w(150, false), 1).unwrap();
    assert_eq!((d.text.as_str(), d.x, d.y, d.font_size), ("Art by Rebecca Guay", 120, 566, 32));
    assert_eq!(ArtistRenderer::font_size(&l, w(200, true)), 28);
    let wrapped = ArtistRenderer::plan(&l, &c, w(250, false), 3).unwrap();
    assert_eq!((wrapped.y, wrapped.font_size), (566 - 2 * 19, 28));
    let mut anon = c.clone();
    anon.print.artist = None;
    assert!(ArtistRenderer::plan(&l, &anon, w(0, false), 1).is_none());
}

#[test]
fn set_line_power_toughness_and_frame() {
    let l = Layout::default();
    let mut c = card("a", "Bears", Some("Creature"), Some(2.0));
    let s = SetCodeRenderer::plan(&l, &c);
    assert_eq!((s.text.as_str(), s.x, s.y), ("NEO 17", 30, 566));
    let p = PowerToughnessRenderer::plan(&l, &c, None).unwrap();
    assert_eq!((p.text.as_str(), p.x, p.y, p.font_size), ("2/3", 330, 566, 60));
    let mut f = face("F", "Creature", "", None);
    f.power = Some("*".to_string());
    assert_eq!(PowerToughnessRenderer::plan(&l, &c, Some(&f)).unwrap().text, "*/3");
    c.core.toughness = None;
    assert!(PowerToughnessRenderer::plan(&l, &c, None).is_none());
    assert!(!SetIconRenderer::has_icon(&c));
    c.core.set_icon_svg_uri = Some("https://svgs/neo.svg".to_string());
    assert!(SetIconRenderer::has_icon(&c));
    let frame = BorderRenderer::frame(416, 576);
    assert_eq!(frame, Frame { width: 416, height: 576, thickness: 3 });
    for (x, y) in [(0, 0), (1, 1), (2, 300), (413, 10), (415, 575), (200, 573), (200, 2)] {
        assert!(frame.covers(x, y), "({x}, {y})");
    }
    for (x, y) in [(3, 3), (412, 572), (200, 300)] {
        assert!(!frame.covers(x, y), "({x}, {y})");
    }
}

#[test]
fn art_boxes() {
    let l = Layout::default();
    let mut c = card("a", "Bears", Some("Creature"), Some(2.0));
    assert!(CardArtRenderer::source(&c, None).is_none());
    let uris = |s: &str| momir_oracle::cards::ImageUris {
        small: None, normal: Some(s.to_string()), large: None, png: None, art_crop: None, border_crop: None,
    };
    c.print.image_uris = Some(uris("card"));
    assert_eq!(CardArtRenderer::source(&c, None).unwrap().normal.as_deref(), Some("card"));
    let mut f = face("F", "T", "", None);
    assert_eq!(CardArtRenderer::source(&c, Some(&f)).unwrap().normal.as_deref(), Some("card"));
    f.image_uris = Some(uris("face"));
    assert_eq!(MeldBackCardArtRenderer::source(&c, Some(&f)).unwrap().normal.as_deref(), Some("face"));
    assert_eq!(CardArtRenderer::left_edge(&l, 300), 60);
    assert_eq!(CardArtRenderer::left_edge(&l, 151), 60 + 74);
    assert_eq!(CardArtRenderer::left_edge(&l, 303), 60 - 1);
    let (top, window) = MeldBackCardArtRenderer::crops(488, 680);
    assert_eq!((top.x, top.y, top.width, top.height), (0, 0, 488, 340));
    assert_eq!((window.x, window.y, window.width, window.height), (20, 88, 448, 252));
    assert_eq!(MeldBackCardArtRenderer::position(&l, 416, 576, 252, 400), (416 - 252, 88));
    assert_eq!(MeldBackCardArtRenderer::position(&l, 416, 576, 252, 577), (164, 0));
}

fn split_style(x: i32) -> SplitTextStyle {
    SplitTextStyle {
        x,
        font: Font::Serif,
        font_size: 32,
        small_text_font_size: Some(24),
        large_text_font_size: Some(36),
        letter_spacing: 2,
        wrap_width: 200,
        margin_top: 10,
        margin_bottom: 30,
        margin_right: 20,
    }
}

fn split_layout() -> SplitLayout {
    let art = ArtLayout { x: 40, y: 0, margin_right: None, max_width: 200, max_height: 300 };
    let icon = SplitIconStyle { margin_bottom: 12, max_width: 30, max_height: 30 };
    SplitLayout {
        first_name: split_style(370),
        second_name: split_style(370),
        first_cost: split_style(370),
        second_cost: split_style(370),
        cost_font_size: 28,
        first_type_line: split_style(120),
        second_type_line: split_style(120),
        first_oracle_text: split_style(90),
        second_oracle_text: split_style(90),
        fuse_reminder_text: split_style(0),
        room_art: art,
        first_art: art,
        second_art: art,
        first_set_icon: icon,
        second_set_icon: icon,
        first_line_mid_point: 100,
        first_line_end_x: 150,
        second_line_mid_point: 105,
        second_line_end_x: 80,
    }
}

#[test]
fn split_cards_lie_on_their_side() {
    let l = Layout::default();
    let s = split_layout();
    let mut c = card("a", "Fire // Ice", Some("Instant // Instant"), Some(4.0));
    c.core.card_faces = Some(vec![
        face("Fire", "Instant", "Fire deals 2 damage.\nFuse (You may cast one or both halves of this card from your hand.)", Some("{1}{R}")),
        face("Ice", "Instant", "Tap target permanent.", None),
    ]);
    let names = SplitNameRenderer::plan(&l, &s, &c, w(150, false), w(250, false), false, true);
    assert_eq!((names.first.text.as_str(), names.first.y, names.first.font_size), ("Fire", 546, 32));
    assert_eq!((names.second.text.as_str(), names.second.y, names.second.font_size), ("Ice", 258, 24));
    let rule = names.rule.unwrap();
    assert_eq!((rule.x, rule.y, rule.length, rule.thickness), (20, 288, 306, 2));
    assert!(SplitNameRenderer::plan(&l, &s, &c, w(0, false), w(0, false), true, false).rule.is_none());
    let (a, b) = SplitCostRenderer::plan(&l, &s, &c, 31, 40);
    let a = a.unwrap();
    assert_eq!((a.text.as_str(), a.y, a.font_size), ("{1}{R}", 288 + 31 + 10, 28));
    assert!(b.is_none());
    let (t1, t2) = SplitTypeLineRenderer::plan(&l, &s, &c);
    assert_eq!((t1.unwrap().y, t2.unwrap().font_size), (546, 24));
    let mut s2 = s;
    SplitTypeLineRenderer::record_first(&mut s2, 41, 222);
    assert_eq!((s2.first_line_mid_point, s2.first_line_end_x), (100, 222));
    SplitTypeLineRenderer::record_second(&mut s2, 40, 99);
    assert_eq!((s2.second_line_mid_point, s2.second_line_end_x), (100, 99));
    let texts = SplitOracleTextRenderer::plan(&l, &s, &c, true, w(301, true), w(210, false), w(100, false), 576);
    let reminder = texts.reminder.unwrap();
    assert_eq!(reminder.text, "\nFuse (You may cast one or both halves of this card from your hand.)");
    assert_eq!((reminder.x, reminder.y), (396, 288 + 150));
    let first = texts.first.unwrap();
    assert_eq!((first.text.as_str(), first.x, first.y, first.font_size), ("Fire deals 2 damage.", 150, 432 + 105, 36));
    let second = texts.second.unwrap();
    assert_eq!((second.text.as_str(), second.x, second.y, second.font_size), ("Tap target permanent.", 150, 144 + 50, 32));
    let plain = SplitOracleTextRenderer::plan(&l, &s, &c, false, w(0, false), w(0, false), w(0, false), 576);
    assert!(plain.reminder.is_none());
    assert!(plain.first.unwrap().text.ends_with("your hand.)"));
    assert!(SplitSetIconRenderer::plan(&l, &s, &c).is_none());
    c.core.set_icon_svg_uri = Some("https://svgs/x.svg".to_string());
    let (i1, i2) = SplitSetIconRenderer::plan(&l, &s, &c).unwrap();
    assert_eq!((i1.x, i1.y, i2.x, i2.y), (100, 300, 105, 12));
    assert_eq!(SplitCardArtRenderer::room_top(&s, 576, 250), 138 + 25);
    let (l1, l2) = SplitCardArtRenderer::crops(626, 457);
    assert_eq!((l1.width, l2.x, l2.width), (313, 313, 626));
    assert_eq!(SplitCardArtRenderer::first_top(&l, 200), 432 - 100);
    assert_eq!(SplitCardArtRenderer::second_top(&l, 200), 144 - 100);
}

#[test]
fn meld_backs_are_centred_up_the_page() {
    let l = Layout::default();
    let style = |x: i32| TextStyle { x, y: 30, font: Font::Serif, margin_left: 0, margin_right: 16, font_size: 40,
        long_text_font_size: Some(30), letter_spacing: 2, wrap_width: 300 };
    let meld = MeldLayout {
        name: style(380),
        type_line: style(340),
        oracle: style(60),
        set_code: style(0),
        loyalty_shield: SvgLayout { x: 10, y: 10, width: 40, height: 40 },
        type_line_end_x: 200,
    };
    let c = card("a", "Brisela, Voice of Nightmares", Some("Legendary Creature — Eldrazi Angel"), Some(11.0));
    let n = MeldNameRenderer::plan(&l, &meld, &c, None, w(301, true));
    assert_eq!((n.x, n.y, n.font_size), (380, 288 + 151, 30));
    let t = MeldTypeLineRenderer::plan(&l, &meld, &c, None, w(100, false));
    assert_eq!((t.text.as_str(), t.x, t.y, t.font_size), ("Legendary Creature — Eldrazi Angel", 340, 338, 40));
    let o = MeldOracleTextRenderer::plan(&l, &meld, &c, None, w(50, false), 577);
    assert_eq!((o.text.as_str(), o.x, o.y), ("Trample", 200, 288 + 25));
    let s = MeldSetCodeRenderer::plan(&l, &meld, &c);
    assert_eq!((s.text.as_str(), s.x, s.y), ("NEO 17", 400, 30));
}

#[test]
fn cache_plan_and_file_names() {
    assert_eq!(extract_updated_at("oracle-cards-20240105093000.jsonl.gz"), Some(1704447000));
    assert_eq!(extract_updated_at("oracle-cards-2024010509300.jsonl.gz"), None);
    assert_eq!(extract_updated_at("oracle-cards-20241305093000.jsonl.gz"), None);
    assert_eq!(extract_updated_at("oracle-cards-20240105093000.json"), None);
    assert_eq!(download_file_name("https://data.scryfall.io/oracle-cards/oracle-cards-20240105093000.jsonl.gz"),
        "oracle-cards-20240105093000.jsonl.gz");
    let files = vec![("/c/a.jsonl.gz".to_string(), 1_000_000), ("/c/b.jsonl.gz".to_string(), 1_050_000)];
    assert_eq!(plan_cache(&files, 1_100_000, 0, "https://x/y/new.jsonl.gz"), CachePlan::Reuse { path: "/c/b.jsonl.gz".to_string() });
    assert_eq!(plan_cache(&files, 1_050_000 + 86_400, 0, "https://x/y/new.jsonl.gz"), CachePlan::Reuse { path: "/c/b.jsonl.gz".to_string() });
    assert_eq!(plan_cache(&files, 1_050_000 + 86_400, 1, "https://x/y/new.jsonl.gz"), CachePlan::Download { file_name: "new.jsonl.gz".to_string() });
    assert_eq!(plan_cache(&vec![], 0, 0, "https://x/y/new.jsonl.gz"), CachePlan::Download { file_name: "new.jsonl.gz".to_string() });
    assert!(is_stale_oracle_file("oracle-cards-1.jsonl.gz", "/c/oracle-cards-1.jsonl.gz", "/c/oracle-cards-2.jsonl.gz"));
    assert!(!is_stale_oracle_file("oracle-cards-2.jsonl.gz", "/c/oracle-cards-2.jsonl.gz", "/c/oracle-cards-2.jsonl.gz"));
    assert!(!is_stale_oracle_file("default-cards-1.jsonl.gz", "/c/default-cards-1.jsonl.gz", "/c/x"));
}

#[test]
fn bulk_listing_and_catalog() {
    let entry = |t: &str| BulkData {
        object: "bulk_data".to_string(), id: t.to_string(), data_type: t.to_string(), updated_at: String::new(),
        uri: String::new(), name: t.to_string(), description: String::new(), jsonl_download_uri: format!("https://d/{t}.jsonl.gz"),
        compressed_size: 1,
    };
    let list = vec![entry("default_cards"), entry("oracle_cards"), entry("rulings")];
    assert_eq!(find_oracle_cards(&list).unwrap().id, "oracle_cards");
    assert!(find_oracle_cards(&vec![entry("rulings")]).is_none());
    let mut second = entry("oracle_cards");
    second.id = "later".to_string();
    let twice = vec![entry("rulings"), entry("oracle_cards"), second];
    assert_eq!(find_oracle_cards(&twice).unwrap().id, "oracle_cards");
    let cat = ScryfallCatalog { object: "catalog".to_string(), uri: String::new(), total_values: 2,
        data: vec!["Elf".to_string(), "Goblin".to_string()] };
    assert_eq!(cat.into_data(), vec!["Elf", "Goblin"]);
}

#[test]
fn only_the_three_newest_logs_are_kept() {
    assert!(is_log_file("momir_rs.jsonl.2024-01-05"));
    assert!(!is_log_file("momir_rs.jsonl"));
    assert!(!is_log_file("other.jsonl.2024-01-05"));
    let mut names: Vec<String> = vec![
        "momir_rs.jsonl.2024-01-05", "notes.txt", "momir_rs.jsonl.2024-01-02", "momir_rs.jsonl.2024-01-04",
        "momir_rs.jsonl.2024-01-03", "momir_rs.jsonl.2024-01-01",
    ]
    .into_iter()
    .map(String::from)
    .collect();
    assert_eq!(logs_to_remove(&names), vec!["momir_rs.jsonl.2024-01-01", "momir_rs.jsonl.2024-01-02"]);
    assert!(logs_to_remove(&names[..3].to_vec()).is_empty());
    assert!(logs_to_remove(&names[..4].to_vec()).is_empty());
    assert_eq!(logs_to_remove(&names[..5].to_vec()), vec!["momir_rs.jsonl.2024-01-02"]);
    names.reverse();
    assert_eq!(logs_to_remove(&names), vec!["momir_rs.jsonl.2024-01-01", "momir_rs.jsonl.2024-01-02"]);
    names.push("momir_rs.jsonl.2023-12-31".to_string());
    assert_eq!(
        logs_to_remove(&names),
        vec!["momir_rs.jsonl.2023-12-31", "momir_rs.jsonl.2024-01-01", "momir_rs.jsonl.2024-01-02"]
    );
}

#[test]
fn server_defaults() {
    let d = default_server_config();
    assert_eq!(d, ServerConfig {
        host: "0.0.0.0".to_string(),
        port: 8080,
        scryfall_user_agent: "momir_basic_rs/v0.1".to_string(),
        cache_dir: None,
    });
}

use fpl_tables::decode::Decode;
use fpl_tables::error::DecodeError;
use fpl_tables::ingest::ingest;
use fpl_tables::models::general::Element;
use fpl_tables::payload::parse_json;
use fpl_tables::schema::{read_row, render_header, render_row, Field, Kind};
use fpl_tables::table::{render_table, table_file};

const COLUMNS: [&str; 67] = [
    "chance_of_playing_next_round", "chance_of_playing_this_round", "code",
    "cost_change_event", "cost_change_event_fall", "cost_change_start",
    "cost_change_start_fall", "dreamteam_count", "element_type", "ep_next", "ep_this",
    "event_points", "first_name", "form", "id", "in_dreamteam", "news", "news_added",
    "now_cost", "photo", "points_per_game", "second_name", "selected_by_percent", "special",
    "squad_number", "status", "team", "team_code", "total_points", "transfers_in",
    "transfers_in_event", "transfers_out", "transfers_out_event", "value_form", "value_season",
    "web_name", "minutes", "goals_scored", "assists", "clean_sheets", "goals_conceded",
    "own_goals", "penalties_saved", "penalties_missed", "yellow_cards", "red_cards", "saves",
    "bonus", "bps", "influence", "creativity", "threat", "ict_index", "influence_rank",
    "influence_rank_type", "creativity_rank", "creativity_rank_type", "threat_rank",
    "threat_rank_type", "ict_index_rank", "ict_index_rank_type",
    "corners_and_indirect_freekicks_order", "corners_and_indirect_freekicks_text",
    "direct_freekicks_order", "direct_freekicks_text", "penalties_order", "penalties_text",
];

const INTEGERS: [&str; 38] = [
    "code", "cost_change_event", "cost_change_event_fall", "cost_change_start",
    "cost_change_start_fall", "dreamteam_count", "element_type", "event_points", "id",
    "now_cost", "team", "team_code", "total_points", "transfers_in", "transfers_in_event",
    "transfers_out", "transfers_out_event", "minutes", "goals_scored", "assists",
    "clean_sheets", "goals_conceded", "own_goals", "penalties_saved", "penalties_missed",
    "yellow_cards", "red_cards", "saves", "bonus", "bps", "influence_rank",
    "influence_rank_type", "creativity_rank", "creativity_rank_type", "threat_rank",
    "threat_rank_type", "ict_index_rank", "ict_index_rank_type",
];

const TEXTS: [&str; 20] = [
    "ep_next", "ep_this", "first_name", "form", "news", "photo", "points_per_game",
    "second_name", "selected_by_percent", "status", "value_form", "value_season", "web_name",
    "influence", "creativity", "threat", "ict_index", "corners_and_indirect_freekicks_text",
    "direct_freekicks_text", "penalties_text",
];

const FLAGS: [&str; 2] = [
    "in_dreamteam", "special",
];

const OPTIONALS: [&str; 7] = [
    "chance_of_playing_next_round", "chance_of_playing_this_round", "news_added",
    "squad_number", "corners_and_indirect_freekicks_order", "direct_freekicks_order",
    "penalties_order",
];

const HEADER: &str = "chance_of_playing_next_round,chance_of_playing_this_round,code,\
cost_change_event,cost_change_event_fall,cost_change_start,cost_change_start_fall,\
dreamteam_count,element_type,ep_next,ep_this,event_points,first_name,form,id,in_dreamteam,\
news,news_added,now_cost,photo,points_per_game,second_name,selected_by_percent,special,\
squad_number,status,team,team_code,total_points,transfers_in,transfers_in_event,\
transfers_out,transfers_out_event,value_form,value_season,web_name,minutes,goals_scored,\
assists,clean_sheets,goals_conceded,own_goals,penalties_saved,penalties_missed,yellow_cards,\
red_cards,saves,bonus,bps,influence,creativity,threat,ict_index,influence_rank,\
influence_rank_type,creativity_rank,creativity_rank_type,threat_rank,threat_rank_type,\
ict_index_rank,ict_index_rank_type,corners_and_indirect_freekicks_order,\
corners_and_indirect_freekicks_text,direct_freekicks_order,direct_freekicks_text,\
penalties_order,penalties_text\n";

const ROW_ONE: &str = ",,0,0,0,0,0,0,0,,,0,,,1,false,,,50,,,,,false,,,0,0,0,0,0,0,0,,,,\
0,0,0,0,0,0,0,0,0,0,0,0,0,,,,,0,0,0,0,0,0,0,0,,,,,,\n";

const ROW_TWO: &str = ",,0,0,0,0,0,0,0,,,0,,,2,false,,,75,,,,,false,,,0,0,0,0,0,0,0,,,,\
0,0,0,0,0,0,0,0,0,0,0,0,0,,,,,0,0,0,0,0,0,0,0,,,,,,\n";

/// The JSON text of a player: every field at its plainest value, but for
/// `given`, and without the keys in `left_out`.
fn element_text(given: &[(&str, &str)], left_out: &[&str]) -> String {
    let mut members: Vec<String> = Vec::new();
    let kinds: [(&[&str], &str); 4] =
        [(&INTEGERS, "0"), (&TEXTS, "\"\""), (&FLAGS, "false"), (&OPTIONALS, "null")];
    for (keys, plain) in kinds {
        for key in keys {
            if left_out.contains(key) {
                continue;
            }
            let value = given.iter().find(|(k, _)| k == key).map(|(_, v)| *v).unwrap_or(plain);
            members.push(format!("\"{}\":{}", key, value));
        }
    }
    format!("{{{}}}", members.join(","))
}

fn decode_element(text: &str) -> Result<Element, DecodeError> {
    let json = parse_json(text.as_bytes()).expect("the text is JSON");
    Element::decode(&json)
}

fn player(id: i64, now_cost: i64) -> Element {
    Element { id, now_cost, ..Element::default() }
}

#[test]
fn the_test_data_names_every_column_once() {
    let mut keys: Vec<&str> = Vec::new();
    keys.extend(INTEGERS);
    keys.extend(TEXTS);
    keys.extend(FLAGS);
    keys.extend(OPTIONALS);
    keys.sort();
    let mut columns = COLUMNS.to_vec();
    columns.sort();
    assert_eq!(keys, columns);
    assert_eq!(COLUMNS.len(), 67);
}

#[test]
fn decodes_a_plain_element() {
    let element = decode_element(&element_text(&[], &[])).unwrap();
    assert_eq!(element, Element::default());
}

#[test]
fn decodes_the_fields_of_an_element() {
    let text = element_text(
        &[
            ("id", "318"),
            ("now_cost", "125"),
            ("web_name", "\"Salah\""),
            ("first_name", "\"Mohamed\""),
            ("form", "\"8.5\""),
            ("in_dreamteam", "true"),
            ("chance_of_playing_next_round", "75"),
            ("news_added", "\"2021-08-01T10:00:00Z\""),
            ("penalties_order", "1"),
            ("cost_change_start_fall", "-3"),
        ],
        &[],
    );
    let element = decode_element(&text).unwrap();
    assert_eq!(element.id, 318);
    assert_eq!(element.now_cost, 125);
    assert_eq!(element.web_name, "Salah");
    assert_eq!(element.first_name, "Mohamed");
    assert_eq!(element.form, "8.5");
    assert!(element.in_dreamteam);
    assert!(!element.special);
    assert_eq!(element.chance_of_playing_next_round, Some(75));
    assert_eq!(element.chance_of_playing_this_round, None);
    assert_eq!(element.news_added, Some("2021-08-01T10:00:00Z".to_string()));
    assert_eq!(element.squad_number, None);
    assert_eq!(element.penalties_order, Some(1));
    assert_eq!(element.direct_freekicks_order, None);
    assert_eq!(element.cost_change_start_fall, -3);
}

#[test]
fn an_optional_field_that_is_missing_or_null_is_absent() {
    let null = decode_element(&element_text(&[("squad_number", "null")], &[])).unwrap();
    assert_eq!(null.squad_number, None);
    let missing = decode_element(&element_text(&[], &["squad_number", "penalties_order"])).unwrap();
    assert_eq!(missing.squad_number, None);
    assert_eq!(missing.penalties_order, None);
    assert_eq!(missing, Element::default());
}

#[test]
fn an_optional_zero_or_empty_text_is_not_absent() {
    let text = element_text(
        &[("chance_of_playing_this_round", "0"), ("squad_number", "\"\"")],
        &[],
    );
    let element = decode_element(&text).unwrap();
    assert_eq!(element.chance_of_playing_this_round, Some(0));
    assert_eq!(element.squad_number, Some(String::new()));
}

#[test]
fn an_element_without_id_is_malformed() {
    let text = element_text(&[], &["id"]);
    assert_eq!(decode_element(&text), Err(DecodeError::Malformed));
}

#[test]
fn a_required_field_that_is_null_is_malformed() {
    assert_eq!(decode_element(&element_text(&[("id", "null")], &[])), Err(DecodeError::Malformed));
    assert_eq!(
        decode_element(&element_text(&[("web_name", "null")], &[])),
        Err(DecodeError::Malformed)
    );
    assert_eq!(
        decode_element(&element_text(&[("special", "null")], &[])),
        Err(DecodeError::Malformed)
    );
}

#[test]
fn a_field_of_the_wrong_kind_is_malformed() {
    for given in [
        ("id", "\"1\""),
        ("now_cost", "5.5"),
        ("now_cost", "true"),
        ("special", "0"),
        ("web_name", "7"),
        ("form", "1.5"),
        ("squad_number", "9"),
        ("penalties_order", "\"1\""),
        ("penalties_order", "1.0"),
        ("id", "[1]"),
        ("id", "{}"),
    ] {
        assert_eq!(
            decode_element(&element_text(&[given], &[])),
            Err(DecodeError::Malformed),
            "{:?}",
            given
        );
    }
}

#[test]
fn an_integer_beyond_the_range_is_malformed() {
    let fits = decode_element(&element_text(&[("id", "9223372036854775807")], &[])).unwrap();
    assert_eq!(fits.id, i64::MAX);
    let least = decode_element(&element_text(&[("id", "-9223372036854775808")], &[])).unwrap();
    assert_eq!(least.id, i64::MIN);
    assert_eq!(
        decode_element(&element_text(&[("id", "9223372036854775808")], &[])),
        Err(DecodeError::Malformed)
    );
}

#[test]
fn number_like_text_stays_text() {
    let text = element_text(
        &[("form", "\"n/a\""), ("influence", "\"007.50\""), ("ep_next", "\"1e3\"")],
        &[],
    );
    let element = decode_element(&text).unwrap();
    assert_eq!(element.form, "n/a");
    assert_eq!(element.influence, "007.50");
    assert_eq!(element.ep_next, "1e3");
    let table = String::from_utf8(render_table(&vec![element])).unwrap();
    let row: Vec<&str> = table.lines().nth(1).unwrap().split(',').collect();
    assert_eq!(row[13], "n/a");
    assert_eq!(row[49], "007.50");
    assert_eq!(row[9], "1e3");
}

#[test]
fn a_document_that_is_no_record_is_malformed() {
    for text in ["[]", "3", "null", "\"id\"", "true"] {
        assert_eq!(decode_element(text), Err(DecodeError::Malformed), "{}", text);
    }
}

#[test]
fn unknown_keys_are_passed_over() {
    let text = element_text(&[("id", "4")], &[]).replacen('{', "{\"shirt\":\"red\",", 1);
    assert_eq!(decode_element(&text).unwrap().id, 4);
}

#[test]
fn the_schema_lists_the_columns_in_order() {
    let schema = Element::schema();
    let names: Vec<&str> = schema.iter().map(|heading| heading.name).collect();
    assert_eq!(names, COLUMNS.to_vec());
    assert_eq!(schema[0].kind, Kind::OptionalInteger);
    assert_eq!(schema[13].kind, Kind::NumericText);
    assert_eq!(schema[14].kind, Kind::Integer);
    assert_eq!(schema[15].kind, Kind::Boolean);
    assert_eq!(schema[16].kind, Kind::Text);
    assert_eq!(schema[17].kind, Kind::OptionalText);
    for heading in &schema {
        let numeric = ["ep_next", "ep_this", "form", "points_per_game", "selected_by_percent",
            "value_form", "value_season", "influence", "creativity", "threat", "ict_index"];
        assert_eq!(heading.kind == Kind::NumericText, numeric.contains(&heading.name));
    }
}

#[test]
fn the_header_holds_the_names_of_the_columns() {
    let header = render_header(&Element::schema());
    let names: Vec<String> =
        header.into_iter().map(|name| String::from_utf8(name).unwrap()).collect();
    assert_eq!(names, COLUMNS.to_vec());
}

#[test]
fn an_element_and_its_fields_stand_for_each_other() {
    let text = element_text(
        &[("id", "9"), ("news", "\"out\""), ("chance_of_playing_next_round", "25")],
        &[],
    );
    let element = decode_element(&text).unwrap();
    let fields = element.fields();
    assert_eq!(fields.len(), 67);
    assert_eq!(fields[0], Field::Int(25));
    assert_eq!(fields[1], Field::Absent);
    assert_eq!(fields[14], Field::Int(9));
    assert_eq!(fields[15], Field::Bool(false));
    assert_eq!(fields[16], Field::Text("out".to_string()));
    assert_eq!(Element::from_fields(&fields), element);
}

#[test]
fn a_row_is_read_under_the_schema() {
    let json = parse_json(element_text(&[("id", "12")], &[]).as_bytes()).unwrap();
    let fields = read_row(&json, &Element::schema()).unwrap();
    assert_eq!(fields, Element { id: 12, ..Element::default() }.fields());
    let broken = parse_json(element_text(&[], &["bps"]).as_bytes()).unwrap();
    assert_eq!(read_row(&broken, &Element::schema()), Err(DecodeError::Malformed));
}

#[test]
fn a_row_shows_each_cell_as_text() {
    let row = render_row(&vec![
        Field::Int(-12),
        Field::Bool(true),
        Field::Bool(false),
        Field::Text("Søren".to_string()),
        Field::Text(String::new()),
        Field::Absent,
    ]);
    let expected: Vec<Vec<u8>> = vec![
        b"-12".to_vec(),
        b"true".to_vec(),
        b"false".to_vec(),
        "Søren".as_bytes().to_vec(),
        Vec::new(),
        Vec::new(),
    ];
    assert_eq!(row, expected);
}

#[test]
fn the_table_of_two_elements() {
    let table = render_table(&vec![player(1, 50), player(2, 75)]);
    let expected = format!("{}{}{}", HEADER, ROW_ONE, ROW_TWO);
    assert_eq!(String::from_utf8(table).unwrap(), expected);
}

#[test]
fn the_table_of_no_elements_is_its_header() {
    assert_eq!(String::from_utf8(render_table(&Vec::new())).unwrap(), HEADER);
}

#[test]
fn the_chance_of_playing_is_empty_or_the_number() {
    let unknown = player(1, 50);
    let known = Element {
        chance_of_playing_next_round: Some(75),
        chance_of_playing_this_round: Some(0),
        ..player(2, 75)
    };
    let table = String::from_utf8(render_table(&vec![unknown, known])).unwrap();
    let lines: Vec<&str> = table.lines().collect();
    assert!(lines[1].starts_with(",,0,"));
    assert!(lines[2].starts_with("75,0,0,"));
}

#[test]
fn a_field_with_a_delimiter_or_a_quote_is_quoted() {
    let element = Element {
        web_name: "O\"Neil, J".to_string(),
        news: "out\nfor a week".to_string(),
        photo: "a\rb".to_string(),
        status: "a b".to_string(),
        ..player(3, 40)
    };
    let table = String::from_utf8(render_table(&vec![element])).unwrap();
    assert!(table.contains(",\"O\"\"Neil, J\","));
    assert!(table.contains(",\"out\nfor a week\","));
    assert!(table.contains(",\"a\rb\","));
    assert!(table.contains(",a b,"));
}

fn read_back(table: &[u8]) -> Vec<Vec<String>> {
    let mut reader = csv::ReaderBuilder::new().has_headers(false).from_reader(table);
    reader
        .records()
        .map(|record| record.unwrap().iter().map(|field| field.to_string()).collect())
        .collect()
}

#[test]
fn a_written_table_reads_back_field_for_field() {
    let first = Element {
        web_name: "O\"Neil, J".to_string(),
        first_name: "Søren \u{1F600}".to_string(),
        news: "out\nfor a week".to_string(),
        form: "0.0".to_string(),
        points_per_game: "-".to_string(),
        chance_of_playing_next_round: Some(100),
        squad_number: Some("null".to_string()),
        news_added: None,
        total_points: -4,
        special: true,
        ..player(1, 50)
    };
    let second = player(2, 75);
    let records = read_back(&render_table(&vec![first.clone(), second]));
    assert_eq!(records.len(), 3);
    assert_eq!(records[0], COLUMNS.to_vec());
    let row = &records[1];
    assert_eq!(row.len(), 67);
    assert_eq!(row[0], "100");
    assert_eq!(row[1], "");
    assert_eq!(row[12], first.first_name);
    assert_eq!(row[13], "0.0");
    assert_eq!(row[14], "1");
    assert_eq!(row[16], first.news);
    assert_eq!(row[17], "");
    assert_eq!(row[18], "50");
    assert_eq!(row[20], "-");
    assert_eq!(row[23], "true");
    assert_eq!(row[24], "null");
    assert_eq!(row[28], "-4");
    assert_eq!(row[35], first.web_name);
    assert_eq!(records[2][14], "2");
    assert_eq!(records[2][18], "75");
}

#[test]
fn a_written_table_has_a_record_for_each_row() {
    for count in [0usize, 1, 2, 40] {
        let rows: Vec<Element> = (0..count).map(|i| player(i as i64, 45)).collect();
        let records = read_back(&render_table(&rows));
        assert_eq!(records.len(), count + 1);
    }
}

#[test]
fn the_file_of_a_table_is_named_after_it() {
    let file = table_file(&vec![player(1, 50)], "elements");
    assert_eq!(file.path, "./data/elements.csv");
    assert_eq!(String::from_utf8(file.contents).unwrap(), format!("{}{}", HEADER, ROW_ONE));
    assert_eq!(table_file(&Vec::new(), "spare").path, "./data/spare.csv");
}

#[test]
fn a_failed_request_gives_no_file() {
    assert_eq!(ingest(None, "elements"), Err(DecodeError::Network));
}

#[test]
fn a_malformed_payload_gives_no_file() {
    assert_eq!(ingest(Some(b"{\"elements\": ["), "elements"), Err(DecodeError::Malformed));
    assert_eq!(ingest(Some(b"{\"elements\": []}"), "elements"), Err(DecodeError::Malformed));
    assert_eq!(ingest(Some(b""), "elements"), Err(DecodeError::Malformed));
}

#[test]
fn a_long_field_is_written_whole() {
    let long = "x\"y, z\n".repeat(6000);
    let element = Element { news: long.clone(), photo: "p".repeat(20000), ..player(1, 50) };
    let records = read_back(&render_table(&vec![element, player(2, 75)]));
    assert_eq!(records.len(), 3);
    assert_eq!(records[1][16], long);
    assert_eq!(records[1][19].len(), 20000);
    assert_eq!(records[2][14], "2");
}

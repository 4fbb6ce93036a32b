use fpl_tables::decode::Decode;
use fpl_tables::error::DecodeError;
use fpl_tables::ingest::ingest;
use fpl_tables::models::general::{
    Amount, ChipPlay, ElementStat, ElementType, Event, GameSettings, General, Phase, Team,
    TopElementInfo,
};
use fpl_tables::payload::{decode, parse_json};

const DATASET: &str = r#"
{"events": [{"id": 1, "name": "Gameweek 1", "deadline_time": "2021-08-13T17:30:00Z",
"average_entry_score": 69, "finished": true, "data_checked": true, "highest_scoring_entry":
5059647, "deadline_time_epoch": 1628875800, "deadline_time_game_offset": 0, "highest_score":
150, "is_previous": true, "is_current": false, "is_next": false, "chip_plays": [{"chip_name":
"bboost", "num_played": 145658}, {"chip_name": "3xc", "num_played": 225749}], "most_selected":
275, "most_transferred_in": 1, "top_element": 277, "top_element_info": {"id": 277, "points":
20}, "transfers_made": 0, "most_captained": 233, "most_vice_captained": 277}, {"id": 2, "name":
"Gameweek 2", "deadline_time": "2021-08-21T10:00:00Z", "average_entry_score": 0, "finished":
false, "data_checked": false, "highest_scoring_entry": null, "deadline_time_epoch": 0,
"deadline_time_game_offset": 0, "highest_score": null, "is_previous": false, "is_current":
false, "is_next": true, "chip_plays": [], "most_selected": null, "most_transferred_in": null,
"top_element": null, "top_element_info": null, "transfers_made": 0, "most_vice_captained":
null}], "game_settings": {"league_join_private_max": 25, "league_join_public_max": 0,
"league_max_size_public_classic": 0, "league_max_size_public_h2h": 16,
"league_max_size_private_h2h": 0, "league_max_ko_rounds_private_h2h": 0, "league_prefix_public":
"League", "league_points_h2h_win": 0, "league_points_h2h_lose": 0, "league_points_h2h_draw": 0,
"league_ko_first_instead_of_random": false, "cup_start_event_id": 0, "cup_stop_event_id": 0,
"cup_qualifying_method": "", "cup_type": "", "squad_squadplay": 0, "squad_squadsize": 15,
"squad_team_limit": 0, "squad_total_spend": 1000, "ui_currency_multiplier": 0,
"ui_use_special_shirts": false, "ui_special_shirt_exclusions": [null, "x"], "stats_form_days":
0, "sys_vice_captain_enabled": false, "transfers_cap": 0, "transfers_sell_on_fee": 0.5,
"league_h2h_tiebreak_stats": ["+goals_scored", "-goals_conceded"], "timezone": "UTC"}, "phases":
[{"id": 1, "name": "Overall", "start_event": 1, "stop_event": 38}], "teams": [{"code": 3,
"draw": 0, "form": null, "id": 1, "loss": 0, "name": "Arsenal", "played": 0, "points": 0,
"position": 0, "short_name": "ARS", "strength": 4, "team_division": null, "unavailable": false,
"win": 0, "strength_overall_home": 0, "strength_overall_away": 0, "strength_attack_home": 1200,
"strength_attack_away": 0, "strength_defence_home": 0, "strength_defence_away": 0, "pulse_id":
1}], "total_players": 8145374, "elements": [{"chance_of_playing_next_round": null,
"chance_of_playing_this_round": null, "code": 0, "cost_change_event": 0,
"cost_change_event_fall": 0, "cost_change_start": 0, "cost_change_start_fall": 0,
"dreamteam_count": 0, "element_type": 1, "ep_next": "", "ep_this": "", "event_points": 0,
"first_name": "Bernd", "form": "0.0", "id": 1, "in_dreamteam": false, "news": "", "news_added":
null, "now_cost": 50, "photo": "", "points_per_game": "", "second_name": "Leno",
"selected_by_percent": "1.2", "special": false, "squad_number": null, "status": "a", "team": 1,
"team_code": 0, "total_points": 0, "transfers_in": 0, "transfers_in_event": 0, "transfers_out":
0, "transfers_out_event": 0, "value_form": "", "value_season": "", "web_name": "Leno",
"minutes": 0, "goals_scored": 0, "assists": 0, "clean_sheets": 0, "goals_conceded": 0,
"own_goals": 0, "penalties_saved": 0, "penalties_missed": 0, "yellow_cards": 0, "red_cards": 0,
"saves": 0, "bonus": 0, "bps": 0, "influence": "", "creativity": "", "threat": "", "ict_index":
"", "influence_rank": 0, "influence_rank_type": 0, "creativity_rank": 0, "creativity_rank_type":
0, "threat_rank": 0, "threat_rank_type": 0, "ict_index_rank": 0, "ict_index_rank_type": 0,
"corners_and_indirect_freekicks_order": null, "corners_and_indirect_freekicks_text": "",
"direct_freekicks_order": null, "direct_freekicks_text": "", "penalties_order": null,
"penalties_text": ""}, {"chance_of_playing_next_round": 75, "chance_of_playing_this_round":
null, "code": 0, "cost_change_event": 0, "cost_change_event_fall": 0, "cost_change_start": 0,
"cost_change_start_fall": 0, "dreamteam_count": 0, "element_type": 1, "ep_next": "", "ep_this":
"", "event_points": 0, "first_name": "Rúnar Alex", "form": "2.5", "id": 2, "in_dreamteam":
false, "news": "Knock, 75% chance of playing", "news_added": "2021-08-10T09:00:00Z", "now_cost":
75, "photo": "", "points_per_game": "", "second_name": "Rúnarsson", "selected_by_percent": "",
"special": false, "squad_number": null, "status": "d", "team": 1, "team_code": 0,
"total_points": 0, "transfers_in": 0, "transfers_in_event": 0, "transfers_out": 0,
"transfers_out_event": 0, "value_form": "", "value_season": "", "web_name": "Rúnarsson",
"minutes": 0, "goals_scored": 0, "assists": 0, "clean_sheets": 0, "goals_conceded": 0,
"own_goals": 0, "penalties_saved": 0, "penalties_missed": 0, "yellow_cards": 0, "red_cards": 0,
"saves": 0, "bonus": 0, "bps": 0, "influence": "", "creativity": "", "threat": "", "ict_index":
"", "influence_rank": 0, "influence_rank_type": 0, "creativity_rank": 0, "creativity_rank_type":
0, "threat_rank": 0, "threat_rank_type": 0, "ict_index_rank": 0, "ict_index_rank_type": 0,
"corners_and_indirect_freekicks_order": null, "corners_and_indirect_freekicks_text": "",
"direct_freekicks_order": null, "direct_freekicks_text": "", "penalties_order": 1,
"penalties_text": ""}], "element_stats": [{"label": "Minutes played", "name": "minutes"}],
"element_types": [{"id": 1, "plural_name": "Goalkeepers", "plural_name_short": "GKP",
"singular_name": "Goalkeeper", "singular_name_short": "GKP", "squad_select": 2,
"squad_min_play": 1, "squad_max_play": 1, "ui_shirt_specific": true, "sub_positions_locked":
[12], "element_count": 77}]}
"#;

fn dataset() -> General {
    decode(DATASET.as_bytes()).expect("the sample is a dataset")
}

/// The sample on one line, with the first occurrence of `from` replaced by
/// `to`.
fn altered(from: &str, to: &str) -> String {
    let line = DATASET.replace('\n', " ");
    assert!(line.contains(from), "{}", from);
    line.replacen(from, to, 1)
}

fn decoded<T: Decode>(text: &str) -> Result<T, DecodeError> {
    T::decode(&parse_json(text.as_bytes()).expect("the text is JSON"))
}

#[test]
fn decodes_the_parts_of_a_dataset() {
    let dataset = dataset();
    assert_eq!(dataset.events.len(), 2);
    assert_eq!(dataset.phases.len(), 1);
    assert_eq!(dataset.teams.len(), 1);
    assert_eq!(dataset.total_players, 8145374);
    assert_eq!(dataset.elements.len(), 2);
    assert_eq!(dataset.element_stats.len(), 1);
    assert_eq!(dataset.element_types.len(), 1);
}

#[test]
fn decodes_a_finished_event() {
    let event = &dataset().events[0];
    assert_eq!(event.id, 1);
    assert_eq!(event.name, "Gameweek 1");
    assert_eq!(event.deadline_time, "2021-08-13T17:30:00Z");
    assert_eq!(event.average_entry_score, 69);
    assert!(event.finished);
    assert!(event.is_previous);
    assert!(!event.is_next);
    assert_eq!(event.highest_scoring_entry, Some(5059647));
    assert_eq!(event.deadline_time_epoch, 1628875800);
    assert_eq!(event.highest_score, Some(150));
    assert_eq!(
        event.chip_plays,
        vec![
            ChipPlay { chip_name: "bboost".to_string(), num_played: 145658 },
            ChipPlay { chip_name: "3xc".to_string(), num_played: 225749 },
        ]
    );
    assert_eq!(event.top_element, Some(277));
    assert_eq!(event.top_element_info, Some(TopElementInfo { id: 277, points: 20 }));
    assert_eq!(event.most_captained, Some(233));
}

#[test]
fn an_event_to_come_has_absent_fields() {
    let event = &dataset().events[1];
    assert_eq!(event.id, 2);
    assert!(event.is_next);
    assert_eq!(event.highest_scoring_entry, None);
    assert_eq!(event.highest_score, None);
    assert_eq!(event.most_selected, None);
    assert_eq!(event.top_element_info, None);
    assert_eq!(event.most_captained, None);
    assert_eq!(event.most_vice_captained, None);
    assert!(event.chip_plays.is_empty());
    assert_eq!(event.transfers_made, 0);
}

#[test]
fn decodes_the_game_settings() {
    let settings = dataset().game_settings;
    assert_eq!(settings.league_join_private_max, 25);
    assert_eq!(settings.league_max_size_public_h2_h, 16);
    assert_eq!(settings.league_prefix_public, "League");
    assert_eq!(settings.squad_squadsize, 15);
    assert_eq!(settings.squad_total_spend, 1000);
    assert_eq!(settings.ui_special_shirt_exclusions, vec![None, Some("x".to_string())]);
    assert_eq!(settings.transfers_sell_on_fee, Amount::Decimal("0.5".to_string()));
    assert_eq!(
        settings.league_h2_h_tiebreak_stats,
        vec!["+goals_scored".to_string(), "-goals_conceded".to_string()]
    );
    assert_eq!(settings.timezone, "UTC");
}

#[test]
fn an_amount_is_whole_or_decimal() {
    let whole = decode(altered("\"transfers_sell_on_fee\": 0.5", "\"transfers_sell_on_fee\": 2").as_bytes());
    assert_eq!(whole.unwrap().game_settings.transfers_sell_on_fee, Amount::Whole(2));
    let negative = decode(altered("\"transfers_sell_on_fee\": 0.5", "\"transfers_sell_on_fee\": -0.25").as_bytes());
    assert_eq!(
        negative.unwrap().game_settings.transfers_sell_on_fee,
        Amount::Decimal("-0.25".to_string())
    );
    let large = decode(
        altered("\"transfers_sell_on_fee\": 0.5", "\"transfers_sell_on_fee\": 18446744073709551615")
            .as_bytes(),
    );
    assert_eq!(
        large.unwrap().game_settings.transfers_sell_on_fee,
        Amount::Decimal("18446744073709551615".to_string())
    );
    let text = decode(altered("\"transfers_sell_on_fee\": 0.5", "\"transfers_sell_on_fee\": \"0.5\"").as_bytes());
    assert_eq!(text, Err(DecodeError::Malformed));
}

#[test]
fn decodes_a_phase_a_team_a_stat_and_a_type() {
    let dataset = dataset();
    assert_eq!(
        dataset.phases[0],
        Phase { id: 1, name: "Overall".to_string(), start_event: 1, stop_event: 38 }
    );
    let team = &dataset.teams[0];
    assert_eq!(team.name, "Arsenal");
    assert_eq!(team.short_name, "ARS");
    assert_eq!(team.code, 3);
    assert_eq!(team.form, None);
    assert_eq!(team.team_division, None);
    assert_eq!(team.strength_attack_home, 1200);
    assert!(!team.unavailable);
    assert_eq!(
        dataset.element_stats[0],
        ElementStat { label: "Minutes played".to_string(), name: "minutes".to_string() }
    );
    let position = &dataset.element_types[0];
    assert_eq!(position.plural_name, "Goalkeepers");
    assert_eq!(position.singular_name_short, "GKP");
    assert_eq!(position.squad_select, 2);
    assert!(position.ui_shirt_specific);
    assert_eq!(position.sub_positions_locked, vec![12]);
    assert_eq!(position.element_count, 77);
}

#[test]
fn decodes_the_elements_of_a_dataset() {
    let elements = dataset().elements;
    assert_eq!(elements[0].id, 1);
    assert_eq!(elements[0].now_cost, 50);
    assert_eq!(elements[0].web_name, "Leno");
    assert_eq!(elements[0].chance_of_playing_next_round, None);
    assert_eq!(elements[1].id, 2);
    assert_eq!(elements[1].now_cost, 75);
    assert_eq!(elements[1].web_name, "Rúnarsson");
    assert_eq!(elements[1].chance_of_playing_next_round, Some(75));
    assert_eq!(elements[1].news, "Knock, 75% chance of playing");
    assert_eq!(elements[1].penalties_order, Some(1));
}

#[test]
fn a_team_with_form_and_division() {
    let team: Team = decoded(
        "{\"code\":1,\"draw\":2,\"form\":\"3.5\",\"id\":4,\"loss\":5,\"name\":\"A\",\"played\":6,\
         \"points\":7,\"position\":8,\"short_name\":\"B\",\"strength\":9,\"team_division\":\"C\",\
         \"unavailable\":true,\"win\":10,\"strength_overall_home\":11,\"strength_overall_away\":12,\
         \"strength_attack_home\":13,\"strength_attack_away\":14,\"strength_defence_home\":15,\
         \"strength_defence_away\":16,\"pulse_id\":17}",
    )
    .unwrap();
    let expected = Team {
        code: 1,
        draw: 2,
        form: Some("3.5".to_string()),
        id: 4,
        loss: 5,
        name: "A".to_string(),
        played: 6,
        points: 7,
        position: 8,
        short_name: "B".to_string(),
        strength: 9,
        team_division: Some("C".to_string()),
        unavailable: true,
        win: 10,
        strength_overall_home: 11,
        strength_overall_away: 12,
        strength_attack_home: 13,
        strength_attack_away: 14,
        strength_defence_home: 15,
        strength_defence_away: 16,
        pulse_id: 17,
    };
    assert_eq!(team, expected);
    assert_eq!(Team::from_fields(&expected.fields()), expected);
}

#[test]
fn a_payload_that_is_no_json_is_malformed() {
    for text in ["", "{", "{\"events\": [}", "nul", "{} {}", "{\"a\": 1,}"] {
        assert_eq!(decode(text.as_bytes()), Err(DecodeError::Malformed), "{}", text);
    }
    assert_eq!(decode(&[0xff, 0xfe]), Err(DecodeError::Malformed));
    assert_eq!(decode(format!("{} x", DATASET).as_bytes()), Err(DecodeError::Malformed));
}

#[test]
fn a_payload_that_is_no_record_is_malformed() {
    for text in ["[]", "1", "null", "\"events\"", "{}"] {
        assert_eq!(decode(text.as_bytes()), Err(DecodeError::Malformed), "{}", text);
    }
}

#[test]
fn a_dataset_without_one_of_its_parts_is_malformed() {
    for key in [
        "events",
        "game_settings",
        "phases",
        "teams",
        "total_players",
        "elements",
        "element_stats",
        "element_types",
    ] {
        let text = altered(&format!("\"{}\":", key), &format!("\"no_{}\":", key));
        assert_eq!(decode(text.as_bytes()), Err(DecodeError::Malformed), "{}", key);
    }
}

#[test]
fn an_element_without_id_makes_the_dataset_malformed() {
    let text = altered("\"id\": 2, \"in_dreamteam\"", "\"in_dreamteam\"");
    assert_eq!(decode(text.as_bytes()), Err(DecodeError::Malformed));
    assert_eq!(ingest(Some(text.as_bytes()), "elements"), Err(DecodeError::Malformed));
}

#[test]
fn a_part_of_the_wrong_kind_is_malformed() {
    for (from, to) in [
        ("\"total_players\": 8145374", "\"total_players\": \"8145374\""),
        ("\"total_players\": 8145374", "\"total_players\": null"),
        ("\"phases\": [", "\"phases\": [1, "),
        ("\"sub_positions_locked\": [12]", "\"sub_positions_locked\": [12.5]"),
        ("\"sub_positions_locked\": [12]", "\"sub_positions_locked\": null"),
        ("\"ui_special_shirt_exclusions\": [null, \"x\"]", "\"ui_special_shirt_exclusions\": [3]"),
        ("\"top_element_info\": {\"id\": 277, \"points\": 20}", "\"top_element_info\": {\"id\": 277}"),
        ("\"top_element_info\": {\"id\": 277, \"points\": 20}", "\"top_element_info\": 277"),
        ("\"chip_plays\": [{\"chip_name\": \"bboost\"", "\"chip_plays\": [{\"chip_name\": 1"),
        ("\"timezone\": \"UTC\"", "\"timezone\": 0"),
    ] {
        assert_eq!(decode(altered(from, to).as_bytes()), Err(DecodeError::Malformed), "{}", to);
    }
}

#[test]
fn a_missing_list_is_not_an_empty_list() {
    let event: Result<Event, DecodeError> = decoded(
        "{\"id\":1,\"name\":\"\",\"deadline_time\":\"\",\"average_entry_score\":0,\"finished\":false,\
         \"data_checked\":false,\"deadline_time_epoch\":0,\"deadline_time_game_offset\":0,\
         \"is_previous\":false,\"is_current\":false,\"is_next\":false,\"transfers_made\":0}",
    );
    assert_eq!(event, Err(DecodeError::Malformed));
    let position: Result<ElementType, DecodeError> = decoded("{\"id\": 1}");
    assert_eq!(position, Err(DecodeError::Malformed));
    let settings: Result<GameSettings, DecodeError> = decoded("{}");
    assert_eq!(settings, Err(DecodeError::Malformed));
}

#[test]
fn the_table_of_a_dataset() {
    let file = ingest(Some(DATASET.as_bytes()), "elements").unwrap();
    assert_eq!(file.path, "./data/elements.csv");
    let table = String::from_utf8(file.contents).unwrap();
    let lines: Vec<&str> = table.lines().collect();
    assert_eq!(lines.len(), 3);
    assert!(lines[0].starts_with("chance_of_playing_next_round,chance_of_playing_this_round,code,"));
    assert!(lines[0].ends_with(",penalties_order,penalties_text"));
    assert_eq!(
        lines[1],
        ",,0,0,0,0,0,0,1,,,0,Bernd,0.0,1,false,,,50,,,Leno,1.2,false,,a,1,0,0,0,0,0,0,,,Leno,\
         0,0,0,0,0,0,0,0,0,0,0,0,0,,,,,0,0,0,0,0,0,0,0,,,,,,"
    );
    assert_eq!(
        lines[2],
        "75,,0,0,0,0,0,0,1,,,0,Rúnar Alex,2.5,2,false,\"Knock, 75% chance of playing\",\
         2021-08-10T09:00:00Z,75,,,Rúnarsson,,false,,d,1,0,0,0,0,0,0,,,Rúnarsson,\
         0,0,0,0,0,0,0,0,0,0,0,0,0,,,,,0,0,0,0,0,0,0,0,,,,,1,"
    );
}

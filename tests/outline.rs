use og_outline::{parse_outline, parse_outline_with, Detail};

fn parse_at(outline: &str, parent_id: &str, language: &str) -> Vec<Detail> {
    parse_outline_with(outline, parent_id, language, 1_700_000_000_000, |k| format!("id-{}", k))
}

fn triples(details: &[Detail]) -> Vec<(String, String, u32)> {
    details
        .iter()
        .map(|d| (d.title.clone(), d.content.clone(), d.estimated_duration))
        .collect()
}

const TRIP: &str = "### Day 1: Arrival
#### Place 1: Airport
**Estimated Duration:** 30 minutes
* Pick up luggage
#### Place 2: Hotel
**Estimated Duration:** 15 minutes
* Check in
### Day 2: Exploring
#### Place 1: Museum
**Estimated Duration:** 90 minutes
* Tour the exhibits
* Buy souvenirs";

#[test]
fn trip_outline_gives_three_details() {
    let details = parse_at(TRIP, "trip-1", "en");
    assert_eq!(
        triples(&details),
        vec![
            ("Day 1 - Arrival".to_string(), "Place 1: Airport\n* Pick up luggage".to_string(), 30),
            ("Day 1 - Arrival".to_string(), "Place 2: Hotel\n* Check in".to_string(), 15),
            (
                "Day 2 - Exploring".to_string(),
                "Place 1: Museum\n* Tour the exhibits\n* Buy souvenirs".to_string(),
                90
            ),
        ]
    );
    for d in &details {
        assert_eq!(d.parent_id, "trip-1");
        assert_eq!(d.language, "en");
        assert!(!d.completed);
        assert_eq!(d.created_at, 1_700_000_000_000);
        assert_eq!(d.updated_at, 1_700_000_000_000);
    }
}

#[test]
fn ids_come_from_the_given_source_in_order() {
    let details = parse_at(TRIP, "trip-1", "en");
    let ids: Vec<&str> = details.iter().map(|d| d.id.as_str()).collect();
    assert_eq!(ids, vec!["id-0", "id-1", "id-2"]);
}

#[test]
fn empty_text_gives_nothing() {
    assert!(parse_at("", "p", "en").is_empty());
}

#[test]
fn text_without_markers_gives_nothing() {
    let text = "Just some prose.\nNo days here.\n* a stray bullet\n";
    assert!(parse_at(text, "p", "en").is_empty());
}

#[test]
fn garbage_text_gives_nothing() {
    let text = "\u{0}\u{1}\u{fffd}##\n#### \n### Day\n:: \r\n\u{7f}* ";
    assert!(parse_at(text, "p", "en").is_empty());
}

#[test]
fn two_days_of_three_places_give_six_details() {
    let mut text = String::new();
    for day in 1..=2 {
        text.push_str(&format!("### Day {}: Day title {}\n", day, day));
        for place in 1..=3 {
            text.push_str(&format!("#### Place {}: Spot {}\n", place, place));
            text.push_str("**Estimated Duration:** 10 minutes\n");
            text.push_str("* Look around\n");
        }
    }
    let details = parse_at(&text, "p", "en");
    assert_eq!(details.len(), 6);
    assert_eq!(details[0].title, "Day 1 - Day title 1");
    assert_eq!(details[2].content, "Place 3: Spot 3\n* Look around");
    assert_eq!(details[3].title, "Day 2 - Day title 2");
    assert_eq!(details[5].content, "Place 3: Spot 3\n* Look around");
}

#[test]
fn day_number_that_is_not_a_number_becomes_one() {
    let text = "### Day abc: Title\n#### Place 2: Park\n**Estimated Duration:** 5 minutes\n";
    let details = parse_at(text, "p", "en");
    assert_eq!(details.len(), 1);
    assert_eq!(details[0].title, "Day 1 - Title");
}

#[test]
fn place_number_that_is_not_a_number_becomes_one() {
    let text = "### Day 3: Title\n#### Place x: Park\n**Estimated Duration:** 5 minutes\n";
    let details = parse_at(text, "p", "en");
    assert_eq!(details[0].title, "Day 3 - Title");
    assert_eq!(details[0].content, "Place 1: Park\n");
}

#[test]
fn day_number_too_large_becomes_one() {
    let text = "### Day 99999999999: Long\n#### Place 1: A\n";
    let details = parse_at(text, "p", "en");
    assert_eq!(details[0].title, "Day 1 - Long");
}

#[test]
fn duration_is_read_in_minutes() {
    let text = "### Day 1: T\n#### Place 1: A\n**Estimated Duration:** 45 minutes\n";
    assert_eq!(parse_at(text, "p", "en")[0].estimated_duration, 45);
}

#[test]
fn duration_largest_value() {
    let text = "### Day 1: T\n#### Place 1: A\n**Estimated Duration:** 4294967295 minutes";
    assert_eq!(parse_at(text, "p", "en")[0].estimated_duration, 4294967295);
}

#[test]
fn missing_duration_line_gives_zero() {
    let text = "### Day 1: T\n#### Place 1: A\n* Walk\n";
    let details = parse_at(text, "p", "en");
    assert_eq!(details.len(), 1);
    assert_eq!(details[0].estimated_duration, 0);
    assert_eq!(details[0].content, "Place 1: A\n* Walk");
}

#[test]
fn malformed_duration_line_gives_zero() {
    for line in [
        "**Estimated Duration:** about 45 minutes",
        "**Estimated Duration:** 45 mins",
        "**Estimated Duration:** -5 minutes",
        "**Estimated Duration:** 4294967296 minutes",
    ] {
        let text = format!("### Day 1: T\n#### Place 1: A\n{}\n* Walk\n", line);
        let details = parse_at(&text, "p", "en");
        assert_eq!(details.len(), 1);
        assert_eq!(details[0].estimated_duration, 0, "{}", line);
        assert_eq!(details[0].content, "Place 1: A\n* Walk");
    }
}

#[test]
fn duration_line_counts_only_right_after_the_place_marker() {
    let text = "### Day 1: T\n#### Place 1: A\n* Walk\n**Estimated Duration:** 45 minutes\n";
    assert_eq!(parse_at(text, "p", "en")[0].estimated_duration, 0);
}

#[test]
fn bullets_are_joined_by_newlines_in_order() {
    let text = "### Day 1: T\n#### Place 1: Town\n**Estimated Duration:** 60 minutes\n\
                * Visit the museum\nSome prose between.\n* Have lunch\n";
    let details = parse_at(text, "p", "en");
    assert_eq!(details[0].content, "Place 1: Town\n* Visit the museum\n* Have lunch");
}

#[test]
fn place_without_bullets_keeps_its_heading_line() {
    let text = "### Day 1: T\n#### Place 4: Quiet\n**Estimated Duration:** 20 minutes\n";
    assert_eq!(parse_at(text, "p", "en")[0].content, "Place 4: Quiet\n");
}

#[test]
fn day_without_places_gives_nothing() {
    let text = "### Day 1: Rest\n* Sleep in\n### Day 2: Go\n#### Place 1: Beach\n";
    let details = parse_at(text, "p", "en");
    assert_eq!(details.len(), 1);
    assert_eq!(details[0].title, "Day 2 - Go");
}

#[test]
fn place_before_any_day_is_ignored() {
    let text = "#### Place 1: Nowhere\n* x\n### Day 1: T\n#### Place 2: Here\n";
    let details = parse_at(text, "p", "en");
    assert_eq!(details.len(), 1);
    assert_eq!(details[0].content, "Place 2: Here\n");
}

#[test]
fn marker_without_newline_at_the_end_is_not_a_marker() {
    let text = "### Day 1: T\n#### Place 1: A\n#### Place 2: B";
    let details = parse_at(text, "p", "en");
    assert_eq!(details.len(), 1);
    assert_eq!(details[0].content, "Place 1: A\n");
}

#[test]
fn marker_must_start_its_line() {
    let text = " ### Day 1: T\n#### Place 1: A\n";
    assert!(parse_at(text, "p", "en").is_empty());
}

#[test]
fn repeated_day_numbers_are_kept() {
    let text = "### Day x: One\n#### Place 1: A\n### Day y: Two\n#### Place 1: B\n";
    let details = parse_at(text, "p", "en");
    assert_eq!(details[0].title, "Day 1 - One");
    assert_eq!(details[1].title, "Day 1 - Two");
}

#[test]
fn title_keeps_text_after_the_first_separator() {
    let text = "### Day 7: Rome: the old town\n#### Place 12: St. Peter's: dome\n";
    let details = parse_at(text, "p", "en");
    assert_eq!(details[0].title, "Day 7 - Rome: the old town");
    assert_eq!(details[0].content, "Place 12: St. Peter's: dome\n");
}

#[test]
fn non_ascii_text_is_copied() {
    let text = "### Day 1: Ankunft in München\n#### Place 1: Café Überall\n* Kaffee trinken ☕\n";
    let details = parse_at(text, "p", "de");
    assert_eq!(details[0].title, "Day 1 - Ankunft in München");
    assert_eq!(details[0].content, "Place 1: Café Überall\n* Kaffee trinken ☕");
    assert_eq!(details[0].language, "de");
}

#[test]
fn language_and_parent_are_carried_to_every_detail() {
    let details = parse_at(TRIP, "64b7f0c2e4b0a1a2b3c4d5e6", "fr-CA");
    assert_eq!(details.len(), 3);
    for d in &details {
        assert_eq!(d.parent_id, "64b7f0c2e4b0a1a2b3c4d5e6");
        assert_eq!(d.language, "fr-CA");
    }
}

#[test]
fn fresh_ids_are_object_id_hex_and_times_agree() {
    let details = parse_outline(TRIP, "trip-1", "en");
    assert_eq!(details.len(), 3);
    for d in &details {
        assert_eq!(d.id.len(), 24);
        assert!(d.id.chars().all(|c| c.is_ascii_digit() || ('a'..='f').contains(&c)));
        assert_eq!(d.created_at, details[0].created_at);
        assert_eq!(d.updated_at, d.created_at);
        assert!(d.created_at > 1_600_000_000_000);
    }
    assert_ne!(details[0].id, details[1].id);
    assert_eq!(details[2].content, "Place 1: Museum\n* Tour the exhibits\n* Buy souvenirs");
}

#[test]
fn numbers_may_carry_a_plus_sign() {
    let text = "### Day +3: T\n#### Place ++2: A\n**Estimated Duration:** +45 minutes\n";
    let details = parse_at(text, "p", "en");
    assert_eq!(details[0].title, "Day 3 - T");
    assert_eq!(details[0].content, "Place 1: A\n");
    assert_eq!(details[0].estimated_duration, 45);
}

#[test]
fn leading_zeros_are_dropped_in_headings() {
    let text = "### Day 007: Bond\n#### Place 0: Lab\n**Estimated Duration:** 0 minutes\n";
    let details = parse_at(text, "p", "en");
    assert_eq!(details[0].title, "Day 7 - Bond");
    assert_eq!(details[0].content, "Place 0: Lab\n");
    assert_eq!(details[0].estimated_duration, 0);
}

use posthog_flags::model::FeatureFlag;
use posthog_flags::report::{flag_detail, flag_detail_text, flag_listing, flag_to_row, FlagListing};

fn sample_flag(created_at: &str, active: bool) -> FeatureFlag {
    FeatureFlag {
        id: 7,
        key: "flag-key".to_string(),
        name: "Flag Name".to_string(),
        active,
        deleted: false,
        filters: serde_json::from_str(r#"{"groups": [{"rollout_percentage": 100}]}"#).unwrap(),
        created_at: created_at.to_string(),
    }
}

#[test]
fn flag_to_row_formats_date_and_active_state() {
    let active_row = flag_to_row(&sample_flag("2026-02-03T04:05:06Z", true));
    assert_eq!(active_row.key, "flag-key");
    assert_eq!(active_row.name, "Flag Name");
    assert_eq!(active_row.active, "yes");
    assert_eq!(active_row.created, "2026-02-03");

    let inactive_row = flag_to_row(&sample_flag("", false));
    assert_eq!(inactive_row.active, "no");
    assert_eq!(inactive_row.created, "-");
}

#[test]
fn print_helpers_accept_empty_list_and_details() {
    assert!(matches!(flag_listing(&[]), FlagListing::Empty));
    assert!(matches!(
        flag_listing(&[sample_flag("2026-02-03T04:05:06Z", true)]),
        FlagListing::Rows(rows) if rows.len() == 1
    ));
    assert!(flag_detail(&sample_flag("2026-02-03T04:05:06Z", true)).starts_with("Key:     flag-key\n"));
}

#[test]
fn date_column_cuts_ten_bytes_and_keeps_short_times_out() {
    assert_eq!(flag_to_row(&sample_flag("2026-02-03", true)).created, "2026-02-03");
    assert_eq!(flag_to_row(&sample_flag("2026-02-0", true)).created, "-");
    assert_eq!(flag_to_row(&sample_flag("été-02-03T00", true)).created, "été-02-0");
}

#[test]
fn detail_lists_every_field_and_pretty_filters() {
    let flag = sample_flag("2026-02-03T04:05:06Z", true);
    let text = flag_detail(&flag);
    assert_eq!(
        text,
        "Key:     flag-key\nName:    Flag Name\nID:      7\nActive:  true\nCreated: 2026-02-03T04:05:06Z\nFilters: {\n  \"groups\": [\n    {\n      \"rollout_percentage\": 100\n    }\n  ]\n}\n"
    );
    let inactive = sample_flag("", false);
    assert_eq!(
        flag_detail_text(&inactive, "{}"),
        "Key:     flag-key\nName:    Flag Name\nID:      7\nActive:  false\nCreated: \nFilters: {}\n"
    );
}

use refer_earn::code::{
    refer_code, refer_link, refer_link_of_window, CanisterId, MAX_CANISTER_ID_BYTES,
};
use refer_earn::pane::{code_slot, code_view, list_pane, page_body, CodeSlot, CodeView, ListPane, PageBody};
use refer_earn::tab::{
    str_eq, tab_button_class, tab_index_of_query, tab_query_value, tab_selector_class,
    HISTORY_TAB, HOW_TO_TAB,
};

#[test]
fn str_eq_equal_strings() {
    assert!(str_eq("history", "history"));
    assert!(str_eq("", ""));
}

#[test]
fn str_eq_different_lengths() {
    assert!(!str_eq("how-to", "history"));
    assert!(!str_eq("history", ""));
}

#[test]
fn str_eq_same_length_different_chars() {
    assert!(!str_eq("history", "hislory"));
}

#[test]
fn query_selects_how_to_tab() {
    assert_eq!(tab_index_of_query(Some("how-to")), HOW_TO_TAB);
}

#[test]
fn query_selects_history_tab() {
    assert_eq!(tab_index_of_query(Some("history")), HISTORY_TAB);
}

#[test]
fn unknown_query_falls_back_to_how_to() {
    assert_eq!(tab_index_of_query(Some("bogus")), HOW_TO_TAB);
}

#[test]
fn missing_query_falls_back_to_how_to() {
    assert_eq!(tab_index_of_query(None), HOW_TO_TAB);
}

#[test]
fn query_values_of_the_tabs() {
    assert_eq!(tab_query_value(HOW_TO_TAB), "how-to");
    assert_eq!(tab_query_value(HISTORY_TAB), "history");
}

#[test]
fn tab_selection_round_trips_through_the_query() {
    for idx in [HOW_TO_TAB, HISTORY_TAB] {
        assert_eq!(tab_index_of_query(Some(tab_query_value(idx))), idx);
    }
}

#[test]
fn selected_tab_button_is_bold_white() {
    assert_eq!(tab_button_class(1, 1), "text-white font-bold");
}

#[test]
fn unselected_tab_button_is_dimmed() {
    assert_eq!(tab_button_class(0, 1), "text-white/50 font-bold");
}

#[test]
fn selected_tab_dot_is_orange() {
    assert_eq!(tab_selector_class(0, 0), "bg-orange-500 w-2 h-2 rounded-full");
}

#[test]
fn unselected_tab_dot_is_transparent() {
    assert_eq!(tab_selector_class(1, 0), "bg-transparent w-2 h-2 rounded-full");
}

#[test]
fn logged_in_user_sees_the_tabbed_body() {
    assert_eq!(page_body(true), PageBody::Tabbed);
    assert_eq!(page_body(false), PageBody::HowToOnly);
}

#[test]
fn first_tab_shows_the_explainer_pane() {
    assert_eq!(list_pane(HOW_TO_TAB), ListPane::HowTo);
    assert_eq!(list_pane(HISTORY_TAB), ListPane::History);
}

#[test]
fn code_slot_depends_on_login() {
    assert_eq!(code_slot(true), CodeSlot::CodeWidget);
    assert_eq!(code_slot(false), CodeSlot::ConnectPrompt);
}

#[test]
fn code_widget_loads_once_the_canister_is_known() {
    let id = CanisterId::from_bytes(vec![4]).unwrap();
    assert_eq!(code_view(Some(&id)), CodeView::Loaded);
    assert_eq!(code_view(None), CodeView::Loading);
}

#[test]
fn canister_id_rejects_overlong_byte_strings() {
    assert!(CanisterId::from_bytes(vec![0; MAX_CANISTER_ID_BYTES]).is_some());
    assert!(CanisterId::from_bytes(vec![0; MAX_CANISTER_ID_BYTES + 1]).is_none());
}

#[test]
fn refer_code_of_the_anonymous_principal() {
    let id = CanisterId::from_bytes(vec![4]).unwrap();
    assert_eq!(refer_code(&id), "2vxsx-fae");
}

#[test]
fn refer_code_of_the_empty_principal() {
    let id = CanisterId::from_bytes(vec![]).unwrap();
    assert_eq!(refer_code(&id), "aaaaa-aa");
}

#[test]
fn refer_code_matches_candid() {
    let bytes = vec![1, 2, 3, 4, 5, 6, 7];
    let id = CanisterId::from_bytes(bytes.clone()).unwrap();
    assert_eq!(refer_code(&id), candid::Principal::from_slice(&bytes).to_text());
}

#[test]
fn refer_link_appends_the_code_to_the_origin() {
    let id = CanisterId::from_bytes(vec![4]).unwrap();
    assert_eq!(
        refer_link("https://example.com", &id),
        "https://example.com/?user_refer=2vxsx-fae"
    );
}

#[test]
fn refer_link_of_an_empty_origin() {
    let id = CanisterId::from_bytes(vec![]).unwrap();
    assert_eq!(refer_link("", &id), "/?user_refer=aaaaa-aa");
}

#[test]
fn refer_link_without_a_window_is_empty() {
    let id = CanisterId::from_bytes(vec![4]).unwrap();
    assert_eq!(
        refer_link_of_window(Some("https://example.com"), &id),
        "https://example.com/?user_refer=2vxsx-fae"
    );
    assert_eq!(refer_link_of_window(None, &id), "");
}

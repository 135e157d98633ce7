use weather::city_query::CityQuery;

fn names(query: &str) -> Vec<String> {
    CityQuery::from_query(query).names
}

#[test]
fn reads_each_names_piece_in_order() {
    assert_eq!(names("names=London&names=Paris"), vec!["London", "Paris"]);
}

#[test]
fn skips_other_pieces() {
    assert_eq!(names("units=metric&names=Oslo&lang=en"), vec!["Oslo"]);
    assert_eq!(names("name=Oslo&names"), Vec::<String>::new());
}

#[test]
fn empty_query_has_no_names() {
    assert!(names("").is_empty());
}

#[test]
fn keeps_empty_and_raw_values() {
    assert_eq!(names("names=&&names=S%C3%A3o=x"), vec!["", "S%C3%A3o=x"]);
    assert_eq!(names("names=Zürich"), vec!["Zürich"]);
}

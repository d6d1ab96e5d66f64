use add_to_notion::notion::client::{Notion, NotionError};
use add_to_notion::notion::model::{
    Color, CreateBlock, DatabaseProperty, FileReference, PageCreateRequest, PageProperty,
    PropertyConfiguration, PropertyValue, RichText, SelectOption, SelectedValue, TargetDatabase,
};
use add_to_notion::notion::new_page::{reconcile, NewPage};

fn option(name: &str, id: &str, color: Color) -> SelectOption {
    SelectOption { name: name.to_string(), id: id.to_string(), color }
}

fn field(name: &str) -> DatabaseProperty {
    DatabaseProperty { name: name.to_string(), configuration: PropertyConfiguration::Other }
}

fn tags_field(options: Vec<SelectOption>) -> DatabaseProperty {
    DatabaseProperty {
        name: "Tags".to_string(),
        configuration: PropertyConfiguration::MultiSelect { options },
    }
}

fn fixture() -> TargetDatabase {
    TargetDatabase {
        id: "0a1b2c3d-0000-4000-8000-1234567890ab".to_string(),
        properties: vec![
            field("Name"),
            field("Created"),
            tags_field(vec![
                option("beach", "opt-1", Color::Blue),
                option("work", "opt-2", Color::Red),
            ]),
            field("URL"),
            field("Image"),
        ],
    }
}

fn page(database: TargetDatabase) -> NewPage {
    NewPage {
        database,
        name: Some("Weekend trip".to_string()),
        url: Some("https://example.com/a".to_string()),
        image_url: Some("https://img.example/abc.png".to_string()),
        tags: Some(vec!["beach".to_string(), "vacay".to_string()]),
    }
}

fn bare(database: TargetDatabase) -> NewPage {
    NewPage { database, name: None, url: None, image_url: None, tags: None }
}

#[test]
fn fixture_database_passes_validation() {
    assert!(Notion::has_expected_database_properties(&fixture()));
}

#[test]
fn removing_any_required_field_fails_validation() {
    for name in ["Name", "Image", "URL", "Tags"] {
        let mut database = fixture();
        database.properties.retain(|property| property.name != name);
        assert!(!Notion::has_expected_database_properties(&database), "{}", name);
    }
}

#[test]
fn removing_another_field_keeps_validation() {
    let mut database = fixture();
    database.properties.retain(|property| property.name != "Created");
    assert!(Notion::has_expected_database_properties(&database));
}

#[test]
fn field_names_are_case_sensitive() {
    let misspelled = [("Name", "name"), ("URL", "Url"), ("Tags", "TAGS"), ("Image", "Image ")];
    for (required, written) in misspelled {
        let mut database = fixture();
        for property in database.properties.iter_mut() {
            if property.name == required {
                property.name = written.to_string();
            }
        }
        assert!(!Notion::has_expected_database_properties(&database), "{}", written);
    }
}

#[test]
fn empty_database_fails_validation() {
    let database = TargetDatabase { id: "x".to_string(), properties: vec![] };
    assert!(!Notion::has_expected_database_properties(&database));
}

#[test]
fn known_tag_keeps_id_and_color() {
    let existing = vec![option("beach", "opt-1", Color::Blue), option("work", "opt-2", Color::Red)];
    assert_eq!(
        reconcile(&"work".to_string(), &existing),
        SelectedValue {
            id: Some("opt-2".to_string()),
            name: Some("work".to_string()),
            color: Color::Red,
        }
    );
}

#[test]
fn unknown_tag_carries_only_its_name() {
    let existing = vec![option("beach", "opt-1", Color::Blue)];
    for tag in ["vacay", "Beach", "beach ", ""] {
        assert_eq!(
            reconcile(&tag.to_string(), &existing),
            SelectedValue { id: None, name: Some(tag.to_string()), color: Color::Default }
        );
    }
}

#[test]
fn first_of_two_options_of_one_name_wins() {
    let existing = vec![option("a", "first", Color::Green), option("a", "second", Color::Pink)];
    assert_eq!(
        reconcile(&"a".to_string(), &existing),
        SelectedValue {
            id: Some("first".to_string()),
            name: Some("a".to_string()),
            color: Color::Green,
        }
    );
}

#[test]
fn name_property_is_a_title_of_one_run() {
    assert_eq!(
        page(fixture()).get_name_property(),
        Some(PropertyValue::Title {
            id: String::new(),
            title: vec![RichText {
                content: "Weekend trip".to_string(),
                plain_text: "Weekend trip".to_string(),
            }],
        })
    );
    assert_eq!(bare(fixture()).get_name_property(), None);
}

#[test]
fn url_property_holds_the_link() {
    assert_eq!(
        page(fixture()).get_url_property(),
        Some(PropertyValue::Url {
            id: String::new(),
            url: Some("https://example.com/a".to_string()),
        })
    );
    assert_eq!(bare(fixture()).get_url_property(), None);
}

#[test]
fn image_property_is_one_outside_file() {
    assert_eq!(
        page(fixture()).get_image_property(),
        Some(PropertyValue::Files {
            id: String::new(),
            files: Some(vec![FileReference {
                name: "Image".to_string(),
                url: "https://img.example/abc.png".to_string(),
            }]),
        })
    );
    assert_eq!(bare(fixture()).get_image_property(), None);
}

#[test]
fn tags_property_reconciles_each_tag() {
    let existing = vec![option("beach", "opt-1", Color::Blue)];
    assert_eq!(
        page(fixture()).get_tags_property(existing.clone()),
        Some(PropertyValue::MultiSelect {
            id: String::new(),
            multi_select: Some(vec![
                SelectedValue {
                    id: Some("opt-1".to_string()),
                    name: Some("beach".to_string()),
                    color: Color::Blue,
                },
                SelectedValue { id: None, name: Some("vacay".to_string()), color: Color::Default },
            ]),
        })
    );
    assert_eq!(bare(fixture()).get_tags_property(existing), None);
}

#[test]
fn empty_tag_list_is_written_as_empty_selection() {
    let mut new_page = bare(fixture());
    new_page.tags = Some(vec![]);
    assert_eq!(
        new_page.get_tags_property(vec![]),
        Some(PropertyValue::MultiSelect { id: String::new(), multi_select: Some(vec![]) })
    );
}

#[test]
fn create_page_builds_the_whole_request() {
    let notion = Notion::new("secret".to_string());
    let request = notion.create_page(page(fixture()));
    assert_eq!(
        request,
        PageCreateRequest {
            parent_database_id: "0a1b2c3d-0000-4000-8000-1234567890ab".to_string(),
            properties: vec![
                PageProperty {
                    name: "Name".to_string(),
                    value: PropertyValue::Title {
                        id: String::new(),
                        title: vec![RichText {
                            content: "Weekend trip".to_string(),
                            plain_text: "Weekend trip".to_string(),
                        }],
                    },
                },
                PageProperty {
                    name: "URL".to_string(),
                    value: PropertyValue::Url {
                        id: String::new(),
                        url: Some("https://example.com/a".to_string()),
                    },
                },
                PageProperty {
                    name: "Tags".to_string(),
                    value: PropertyValue::MultiSelect {
                        id: String::new(),
                        multi_select: Some(vec![
                            SelectedValue {
                                id: Some("opt-1".to_string()),
                                name: Some("beach".to_string()),
                                color: Color::Blue,
                            },
                            SelectedValue {
                                id: None,
                                name: Some("vacay".to_string()),
                                color: Color::Default,
                            },
                        ]),
                    },
                },
                PageProperty {
                    name: "Image".to_string(),
                    value: PropertyValue::Files {
                        id: String::new(),
                        files: Some(vec![FileReference {
                            name: "Image".to_string(),
                            url: "https://img.example/abc.png".to_string(),
                        }]),
                    },
                },
            ],
            children: Some(vec![
                CreateBlock::Image { url: "https://img.example/abc.png".to_string() },
                CreateBlock::Bookmark { url: "https://example.com/a".to_string() },
            ]),
        }
    );
}

#[test]
fn absent_sources_are_left_out_of_the_request() {
    let notion = Notion::new("secret".to_string());
    let request = notion.create_page(bare(fixture()));
    assert_eq!(
        request,
        PageCreateRequest {
            parent_database_id: "0a1b2c3d-0000-4000-8000-1234567890ab".to_string(),
            properties: vec![],
            children: Some(vec![]),
        }
    );
}

#[test]
fn page_without_image_has_no_image_property_and_block() {
    let notion = Notion::new("secret".to_string());
    let mut new_page = page(fixture());
    new_page.image_url = None;
    let request = notion.create_page(new_page);
    let names: Vec<&str> = request.properties.iter().map(|p| p.name.as_str()).collect();
    assert_eq!(names, vec!["Name", "URL", "Tags"]);
    assert_eq!(
        request.children,
        Some(vec![CreateBlock::Bookmark { url: "https://example.com/a".to_string() }])
    );
}

#[test]
fn tags_field_of_another_kind_offers_no_options() {
    let notion = Notion::new("secret".to_string());
    let mut database = fixture();
    database.properties[2] = field("Tags");
    let request = notion.create_page(page(database));
    assert_eq!(
        request.properties[2].value,
        PropertyValue::MultiSelect {
            id: String::new(),
            multi_select: Some(vec![
                SelectedValue { id: None, name: Some("beach".to_string()), color: Color::Default },
                SelectedValue { id: None, name: Some("vacay".to_string()), color: Color::Default },
            ]),
        }
    );
}

#[test]
fn database_is_found_by_its_id_without_hyphens() {
    let notion = Notion::new("secret".to_string());
    let other = TargetDatabase { id: "ffff-0000".to_string(), properties: vec![] };
    let found = notion.get_database_by_id(
        vec![other.clone(), fixture()],
        "0a1b2c3d0000400080001234567890ab".to_string(),
    );
    assert_eq!(found, Ok(fixture()));
}

#[test]
fn hyphenated_id_does_not_match() {
    let notion = Notion::new("secret".to_string());
    let found = notion
        .get_database_by_id(vec![fixture()], "0a1b2c3d-0000-4000-8000-1234567890ab".to_string());
    assert_eq!(found, Err(NotionError::DatabaseNotFound));
}

#[test]
fn missing_database_is_reported() {
    let notion = Notion::new("secret".to_string());
    assert_eq!(
        notion.get_database_by_id(vec![], "abc".to_string()),
        Err(NotionError::DatabaseNotFound)
    );
}

#[test]
fn first_of_two_matching_databases_is_taken() {
    let notion = Notion::new("secret".to_string());
    let first = TargetDatabase { id: "ab-c".to_string(), properties: vec![field("one")] };
    let second = TargetDatabase { id: "a-bc".to_string(), properties: vec![field("two")] };
    assert_eq!(
        notion.get_database_by_id(vec![first.clone(), second], "abc".to_string()),
        Ok(first)
    );
}

#[test]
fn missing_database_has_a_message() {
    assert_eq!(NotionError::DatabaseNotFound.message(), "database does not exist");
}

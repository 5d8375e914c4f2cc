//! Tests of the route-handler decision logic: id normalization, list and
//! lookup outcomes, deletion, pagination and the update statement.

use guitar_catalog::handlers::{
    delete_redirect, delete_status, effective_limit, enrich_all, find_by_slug,
    guitar_by_id_outcome, guitar_by_slug_outcome, guitar_outcome_status, health_payload,
    list_guitars_outcome, list_status, update_outcome_status, update_readback_outcome,
    GuitarOutcome, ListOutcome, UpdateOutcome,
};
use guitar_catalog::models::{Guitar, Image, ImageUpdateRequest};
use guitar_catalog::pagination::paginate_images;
use guitar_catalog::query::{build_image_update, BindValue};
use guitar_catalog::records::normalize_record_id;

fn plain_guitar(brand: &str, model: &str, year: &str, serial: &str) -> Guitar {
    Guitar {
        id: None,
        brand: String::from(brand),
        model: String::from(model),
        slug: None,
        body_style: String::new(),
        line: String::new(),
        variant: String::new(),
        year_reference: String::from(year),
        weight: String::new(),
        price_cents: 0,
        price_currency: String::new(),
        serial_number: String::from(serial),
        hero_image_url: None,
        image_gallery: None,
        image_source: None,
        condition: None,
        status: None,
        production_year: None,
        spec_version_year: None,
        external_source: None,
        external_id: None,
        listing_url: None,
        shop_name: None,
        shop_slug: None,
        hero_url: None,
    }
}

fn plain_image(id: &str) -> Image {
    Image {
        id: Some(format!("images:{}", id)),
        src: format!("https://example.com/{}.jpg", id),
        alt: None,
        w: 800,
        h: 600,
        guitar_id: None,
    }
}

fn empty_patch() -> ImageUpdateRequest {
    ImageUpdateRequest {
        hero_image_url: None,
        image_gallery: None,
        image_source: None,
        condition: None,
        status: None,
    }
}

#[test]
fn normalize_bare_fragment_gets_table_prefix() {
    assert_eq!(normalize_record_id("abc123"), "guitars:abc123");
}

#[test]
fn normalize_qualified_id_passes_through() {
    assert_eq!(normalize_record_id("guitars:abc123"), "guitars:abc123");
    assert_eq!(normalize_record_id("other:9"), "other:9");
}

#[test]
fn health_payload_is_fixed() {
    assert_eq!(health_payload(), "{\"ok\":true}");
}

#[test]
fn delete_is_idempotent() {
    assert_eq!(delete_status(&Ok(1)), 204);
    assert_eq!(delete_status(&Ok(0)), 204);
    assert_eq!(delete_status(&Err(String::from("boom"))), 500);
}

#[test]
fn delete_redirect_is_see_other() {
    let (code, location) = delete_redirect();
    assert_eq!(code, 303);
    assert_eq!(location, "/guitars");
}

#[test]
fn list_on_empty_store_is_success() {
    let out = list_guitars_outcome(Ok(vec![]));
    assert_eq!(list_status(&out), 200);
    match out {
        ListOutcome::Rows(rows) => assert!(rows.is_empty()),
        ListOutcome::Failure(_) => panic!("empty store must not fail"),
    }
}

#[test]
fn list_failure_passes_message_through() {
    let out = list_guitars_outcome(Err(String::from("connection reset")));
    assert_eq!(list_status(&out), 500);
    match out {
        ListOutcome::Rows(_) => panic!("a store failure must not produce rows"),
        ListOutcome::Failure(msg) => assert_eq!(msg, "connection reset"),
    }
}

#[test]
fn list_enriches_every_row_in_order() {
    let rows = vec![
        plain_guitar("Fender", "Strat", "2024", "a"),
        plain_guitar("Gibson", "Les Paul", "1959", "b"),
    ];
    let out = enrich_all(rows);
    assert_eq!(out.len(), 2);
    assert_eq!(out[0].slug, "fender-strat-2024");
    assert_eq!(out[0].display_title, "Fender Strat");
    assert_eq!(out[1].slug, "gibson-les-paul-1959");
    assert_eq!(out[1].formatted_price, "Price on request");
}

#[test]
fn by_id_found_enriches_first_row() {
    let mut g = plain_guitar("Fender", "Strat", "2024", "a");
    g.price_cents = 123456;
    let out = guitar_by_id_outcome(Ok(vec![g]));
    assert_eq!(guitar_outcome_status(&out), 200);
    match out {
        GuitarOutcome::Found(e) => {
            assert_eq!(e.formatted_price, "$1234.56");
            assert_eq!(e.slug, "fender-strat-2024");
        }
        _ => panic!("a non-empty fetch must be found"),
    }
}

#[test]
fn by_id_empty_fetch_is_not_found() {
    let out = guitar_by_id_outcome(Ok(vec![]));
    assert_eq!(guitar_outcome_status(&out), 404);
    assert!(matches!(out, GuitarOutcome::NotFound));
}

#[test]
fn by_id_failure_passes_message_through() {
    let out = guitar_by_id_outcome(Err(String::from("timeout")));
    assert_eq!(guitar_outcome_status(&out), 500);
    match out {
        GuitarOutcome::Failure(msg) => assert_eq!(msg, "timeout"),
        _ => panic!("a store failure must be reported"),
    }
}

#[test]
fn slug_lookup_finds_by_derived_slug() {
    let rows = vec![
        plain_guitar("Gibson", "Les Paul", "1959", "a"),
        plain_guitar("Fender", "Strat", "2024", "b"),
    ];
    let out = guitar_by_slug_outcome(Ok(rows), &String::from("fender-strat-2024"));
    assert_eq!(guitar_outcome_status(&out), 200);
    match out {
        GuitarOutcome::Found(e) => assert_eq!(e.guitar.serial_number, "b"),
        _ => panic!("the derived slug must be found"),
    }
}

#[test]
fn slug_lookup_unknown_slug_is_not_found() {
    let rows = vec![plain_guitar("Gibson", "Les Paul", "1959", "a")];
    let out = guitar_by_slug_outcome(Ok(rows), &String::from("no-such-slug"));
    assert_eq!(guitar_outcome_status(&out), 404);
    assert!(matches!(out, GuitarOutcome::NotFound));
}

#[test]
fn slug_collision_resolves_to_first_in_order_stably() {
    // Two records derive the same slug; the lookup must yield exactly the
    // first in enumeration order, on every call.
    let make_rows = || {
        vec![
            plain_guitar("Fender", "Strat", "2024", "first"),
            plain_guitar("Fender", "Strat", "2024", "second"),
        ]
    };
    for _ in 0..3 {
        let rows = make_rows();
        let found = find_by_slug(&rows, &String::from("fender-strat-2024"));
        assert_eq!(found, Some(0));
        let out = guitar_by_slug_outcome(Ok(rows), &String::from("fender-strat-2024"));
        match out {
            GuitarOutcome::Found(e) => assert_eq!(e.guitar.serial_number, "first"),
            _ => panic!("a colliding slug must still be found"),
        }
    }
}

#[test]
fn effective_limit_defaults_to_sixty() {
    assert_eq!(effective_limit(None), 60);
    assert_eq!(effective_limit(Some(7)), 7);
}

#[test]
fn pagination_returns_rows_after_cursor() {
    let rows: Vec<Image> = vec!["i1", "i2", "i3", "i4", "i5"]
        .into_iter()
        .map(|id| plain_image(id))
        .collect();
    let page = paginate_images(rows, &Some(String::from("images:i2")), 2);
    let ids: Vec<&str> = page.iter().map(|img| img.id.as_deref().unwrap()).collect();
    assert_eq!(ids, vec!["images:i3", "images:i4"]);
}

#[test]
fn pagination_after_last_row_is_empty() {
    let rows: Vec<Image> = vec!["i1", "i2"].into_iter().map(|id| plain_image(id)).collect();
    let page = paginate_images(rows, &Some(String::from("images:i2")), 10);
    assert!(page.is_empty());
}

#[test]
fn pagination_without_cursor_takes_from_start() {
    let rows: Vec<Image> = vec!["i1", "i2", "i3"].into_iter().map(|id| plain_image(id)).collect();
    let page = paginate_images(rows, &None, 2);
    let ids: Vec<&str> = page.iter().map(|img| img.id.as_deref().unwrap()).collect();
    assert_eq!(ids, vec!["images:i1", "images:i2"]);
}

#[test]
fn pagination_unknown_cursor_takes_from_start() {
    let rows: Vec<Image> = vec!["i1", "i2"].into_iter().map(|id| plain_image(id)).collect();
    let page = paginate_images(rows, &Some(String::from("images:zz")), 5);
    assert_eq!(page.len(), 2);
}

#[test]
fn pagination_limit_zero_is_empty() {
    let rows: Vec<Image> = vec!["i1", "i2"].into_iter().map(|id| plain_image(id)).collect();
    let page = paginate_images(rows, &None, 0);
    assert!(page.is_empty());
}

#[test]
fn empty_patch_is_rejected() {
    let statement = build_image_update(&String::from("guitars:abc"), &empty_patch());
    assert!(statement.is_none());
}

#[test]
fn patch_with_only_empty_gallery_is_rejected() {
    let mut patch = empty_patch();
    patch.image_gallery = Some(vec![]);
    let statement = build_image_update(&String::from("guitars:abc"), &patch);
    assert!(statement.is_none());
}

#[test]
fn update_statement_binds_every_present_field() {
    let mut patch = empty_patch();
    patch.hero_image_url = Some(String::from("https://example.com/hero.jpg"));
    patch.status = Some(String::from("Sold"));
    let statement =
        build_image_update(&String::from("guitars:abc"), &patch).expect("fields are present");
    assert_eq!(
        statement.query,
        "UPDATE type::record($rid) SET hero_image_url = $hero_image_url, \
         status = $status, updated_at = time::now()"
    );
    assert_eq!(statement.bindings.len(), 3);
    assert_eq!(statement.bindings[0].0, "rid");
    assert!(
        matches!(&statement.bindings[0].1, BindValue::Text(v) if v == "guitars:abc")
    );
    assert_eq!(statement.bindings[1].0, "hero_image_url");
    assert!(
        matches!(&statement.bindings[1].1, BindValue::Text(v) if v == "https://example.com/hero.jpg")
    );
    assert_eq!(statement.bindings[2].0, "status");
    assert!(matches!(&statement.bindings[2].1, BindValue::Text(v) if v == "Sold"));
}

#[test]
fn update_statement_binds_gallery_as_list() {
    let mut patch = empty_patch();
    patch.image_gallery = Some(vec![String::from("a.jpg"), String::from("b.jpg")]);
    let statement =
        build_image_update(&String::from("guitars:abc"), &patch).expect("fields are present");
    assert_eq!(
        statement.query,
        "UPDATE type::record($rid) SET image_gallery = $image_gallery, updated_at = time::now()"
    );
    assert_eq!(statement.bindings.len(), 2);
    assert_eq!(statement.bindings[1].0, "image_gallery");
    assert!(
        matches!(&statement.bindings[1].1, BindValue::TextList(v) if v == &vec![String::from("a.jpg"), String::from("b.jpg")])
    );
}

#[test]
fn readback_success_is_updated() {
    let out = update_readback_outcome(Ok(vec![plain_guitar("Fender", "Strat", "2024", "a")]));
    assert_eq!(update_outcome_status(&out), 200);
    match out {
        UpdateOutcome::Updated(e) => assert_eq!(e.slug, "fender-strat-2024"),
        UpdateOutcome::Vanished => panic!("a read-back row must report as updated"),
    }
}

#[test]
fn readback_empty_is_not_found() {
    let out = update_readback_outcome(Ok(vec![]));
    assert_eq!(update_outcome_status(&out), 404);
    assert!(matches!(out, UpdateOutcome::Vanished));
}

#[test]
fn readback_failure_is_not_found() {
    // A failed read-back after a successful write reports 404 — preserved
    // service behavior.
    let out = update_readback_outcome(Err(String::from("gone")));
    assert_eq!(update_outcome_status(&out), 404);
    assert!(matches!(out, UpdateOutcome::Vanished));
}

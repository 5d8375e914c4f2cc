//! Data model: plain records mirroring the stored rows, with the
//! presentation helpers that the route handlers derive from them.

use vstd::prelude::*;
use vstd::string::StringExecFns;
use crate::text::{
    lower_of, lowercase, spec_hyphenate, hyphenate, str_eq, spec_decimal, spec_two_digits,
    u64_to_decimal, u64_to_two_digits,
};

verus! {

/// A guitar record as the store holds it. The store-assigned record id is
/// kept as its plain `table:id` string form; it is absent until the record
/// is persisted.
#[derive(Debug, Clone)]
pub struct Guitar {
    pub id: Option<String>,
    pub brand: String,
    pub model: String,
    pub slug: Option<String>,
    pub body_style: String,
    pub line: String,
    pub variant: String,
    pub year_reference: String,
    pub weight: String,
    pub price_cents: i64,
    pub price_currency: String,
    pub serial_number: String,
    pub hero_image_url: Option<String>,
    pub image_gallery: Option<Vec<String>>,
    pub image_source: Option<String>,
    pub condition: Option<String>,
    pub status: Option<String>,
    pub production_year: Option<i32>,
    pub spec_version_year: Option<i32>,
    pub external_source: Option<String>,
    pub external_id: Option<String>,
    pub listing_url: Option<String>,
    pub shop_name: Option<String>,
    pub shop_slug: Option<String>,
    pub hero_url: Option<String>,
}

/// Whether a guitar has any image: a hero image, the legacy hero field,
/// or a non-empty gallery.
pub open spec fn spec_has_images(g: Guitar) -> bool {
    ||| g.hero_image_url is Some
    ||| g.hero_url is Some
    ||| (g.image_gallery is Some && g.image_gallery->0.len() > 0)
}

/// Number of images in the gallery; 0 when there is no gallery.
pub open spec fn spec_image_count(g: Guitar) -> nat {
    if g.image_gallery is Some {
        g.image_gallery->0.len() as nat
    } else {
        0
    }
}

/// The main image: the hero image if present, else the legacy hero field.
pub open spec fn spec_main_image(g: Guitar) -> Option<String> {
    if g.hero_image_url is Some {
        g.hero_image_url
    } else {
        g.hero_url
    }
}

/// The slug derived from the record's fields: lower-cased brand, model and
/// year reference with spaces turned to hyphens, joined by hyphens.
pub open spec fn spec_derived_slug(g: Guitar) -> Seq<char> {
    spec_hyphenate(lower_of(g.brand@)) + "-"@ + spec_hyphenate(lower_of(g.model@)) + "-"@
        + spec_hyphenate(lower_of(g.year_reference@))
}

/// The slug under which a guitar is reachable: the stored slug if one is
/// present, else the derived slug.
pub open spec fn spec_slug(g: Guitar) -> Seq<char> {
    if g.slug is Some {
        g.slug->0@
    } else {
        spec_derived_slug(g)
    }
}

/// The display title: brand and model joined by a single space.
pub open spec fn spec_display_title(g: Guitar) -> Seq<char> {
    g.brand@ + " "@ + g.model@
}

/// The formatted price: a dollar sign, the whole dollars, a point and two
/// cent digits when the price is positive; else a fixed request-a-price
/// text.
pub open spec fn spec_formatted_price(cents: int) -> Seq<char> {
    if cents > 0 {
        "$"@ + spec_decimal((cents / 100) as nat) + "."@ + spec_two_digits((cents % 100) as nat)
    } else {
        "Price on request"@
    }
}

/// The styling color for a condition tag.
pub open spec fn spec_condition_color(cond: Option<String>) -> Seq<char> {
    if cond is Some && (cond->0@ == "Excellent +"@ || cond->0@ == "Excellent"@) {
        "green"@
    } else if cond is Some && cond->0@ == "Good"@ {
        "yellow"@
    } else if cond is Some && (cond->0@ == "Fair"@ || cond->0@ == "Poor"@) {
        "red"@
    } else {
        "gray"@
    }
}

/// The styling color for a status tag.
pub open spec fn spec_status_color(status: Option<String>) -> Seq<char> {
    if status is Some && status->0@ == "Available"@ {
        "success"@
    } else if status is Some && status->0@ == "Sold"@ {
        "danger"@
    } else if status is Some && status->0@ == "On Hold"@ {
        "warning"@
    } else if status is Some && status->0@ == "Pending"@ {
        "info"@
    } else {
        "secondary"@
    }
}

impl Guitar {
    /// Generate a slug for this guitar if one doesn't exist.
    pub fn get_slug(&self) -> (r: String)
        ensures
            r@ == spec_slug(*self),
    {
        match &self.slug {
            Some(s) => s.clone(),
            None => {
                let b = hyphenate(lowercase(self.brand.as_str()).as_str());
                let m = hyphenate(lowercase(self.model.as_str()).as_str());
                let y = hyphenate(lowercase(self.year_reference.as_str()).as_str());
                let mut r = b;
                r.append("-");
                r.append(m.as_str());
                r.append("-");
                r.append(y.as_str());
                proof {
                    assert(r@ =~= spec_derived_slug(*self));
                }
                r
            },
        }
    }

    /// Get display title for the guitar.
    pub fn get_display_title(&self) -> (r: String)
        ensures
            r@ == spec_display_title(*self),
    {
        let mut r = self.brand.clone();
        r.append(" ");
        r.append(self.model.as_str());
        proof {
            assert(r@ =~= spec_display_title(*self));
        }
        r
    }

    /// Get formatted price for display.
    pub fn get_formatted_price(&self) -> (r: String)
        ensures
            r@ == spec_formatted_price(self.price_cents as int),
    {
        if self.price_cents > 0 {
            let total: u64 = self.price_cents as u64;
            let dollars = u64_to_decimal(total / 100);
            let cents = u64_to_two_digits(total % 100);
            let mut r = String::from_str("$");
            r.append(dollars.as_str());
            r.append(".");
            r.append(cents.as_str());
            proof {
                assert(r@ =~= spec_formatted_price(self.price_cents as int));
            }
            r
        } else {
            String::from_str("Price on request")
        }
    }

    /// Get condition color for frontend styling.
    pub fn get_condition_color(&self) -> (r: &'static str)
        ensures
            r@ == spec_condition_color(self.condition),
    {
        match &self.condition {
            Some(c) => {
                if str_eq(c, "Excellent +") || str_eq(c, "Excellent") {
                    "green"
                } else if str_eq(c, "Good") {
                    "yellow"
                } else if str_eq(c, "Fair") || str_eq(c, "Poor") {
                    "red"
                } else {
                    "gray"
                }
            },
            None => "gray",
        }
    }

    /// Get status color for frontend styling.
    pub fn get_status_color(&self) -> (r: &'static str)
        ensures
            r@ == spec_status_color(self.status),
    {
        match &self.status {
            Some(s) => {
                if str_eq(s, "Available") {
                    "success"
                } else if str_eq(s, "Sold") {
                    "danger"
                } else if str_eq(s, "On Hold") {
                    "warning"
                } else if str_eq(s, "Pending") {
                    "info"
                } else {
                    "secondary"
                }
            },
            None => "secondary",
        }
    }

    /// Check if guitar has images.
    pub fn has_images(&self) -> (r: bool)
        ensures
            r == spec_has_images(*self),
    {
        if self.hero_image_url.is_some() {
            true
        } else if self.hero_url.is_some() {
            true
        } else {
            match &self.image_gallery {
                Some(gallery) => gallery.len() > 0,
                None => false,
            }
        }
    }

    /// Get image gallery count.
    pub fn get_image_count(&self) -> (r: usize)
        ensures
            r == spec_image_count(*self),
    {
        match &self.image_gallery {
            Some(gallery) => gallery.len(),
            None => 0,
        }
    }

    /// Get the main image URL with fallback strategy.
    pub fn get_main_image(&self) -> (r: Option<String>)
        ensures
            r == spec_main_image(*self),
    {
        match &self.hero_image_url {
            Some(url) => Some(url.clone()),
            None => match &self.hero_url {
                Some(url) => Some(url.clone()),
                None => None,
            },
        }
    }
}

/// A guitar record together with every presentation field derived from it.
/// The handlers compute it once per response; nothing of it is persisted.
#[derive(Debug, Clone)]
pub struct EnrichedGuitar {
    pub guitar: Guitar,
    pub slug: String,
    pub display_title: String,
    pub formatted_price: String,
    pub main_image: Option<String>,
    pub has_images: bool,
    pub image_count: usize,
    pub condition_color: String,
    pub status_color: String,
}

/// Every presentation field of `e` is the one derived from `g`, and the
/// record itself is carried unchanged.
pub open spec fn spec_enriched(g: Guitar, e: EnrichedGuitar) -> bool {
    &&& e.guitar == g
    &&& e.slug@ == spec_slug(g)
    &&& e.display_title@ == spec_display_title(g)
    &&& e.formatted_price@ == spec_formatted_price(g.price_cents as int)
    &&& e.main_image == spec_main_image(g)
    &&& e.has_images == spec_has_images(g)
    &&& e.image_count == spec_image_count(g)
    &&& e.condition_color@ == spec_condition_color(g.condition)
    &&& e.status_color@ == spec_status_color(g.status)
}

/// Derive every presentation field for one record.
pub fn enrich(g: Guitar) -> (e: EnrichedGuitar)
    ensures
        spec_enriched(g, e),
{
    let slug = g.get_slug();
    let display_title = g.get_display_title();
    let formatted_price = g.get_formatted_price();
    let main_image = g.get_main_image();
    let has_images = g.has_images();
    let image_count = g.get_image_count();
    let condition_color = String::from_str(g.get_condition_color());
    let status_color = String::from_str(g.get_status_color());
    EnrichedGuitar {
        guitar: g,
        slug,
        display_title,
        formatted_price,
        main_image,
        has_images,
        image_count,
        condition_color,
        status_color,
    }
}

/// A stored image row. The record id is kept in its plain `table:id`
/// string form; the guitar reference is a loose string link.
#[derive(Debug, Clone)]
pub struct Image {
    pub id: Option<String>,
    pub src: String,
    pub alt: Option<String>,
    pub w: i32,
    pub h: i32,
    pub guitar_id: Option<String>,
}

impl Image {
    /// A field-for-field copy of the row.
    pub fn duplicate(&self) -> (r: Image)
        ensures
            r == *self,
    {
        Image {
            id: clone_opt_string(&self.id),
            src: self.src.clone(),
            alt: clone_opt_string(&self.alt),
            w: self.w,
            h: self.h,
            guitar_id: clone_opt_string(&self.guitar_id),
        }
    }
}

/// A partial image-metadata patch: any subset of the recognized fields.
#[derive(Debug, Clone)]
pub struct ImageUpdateRequest {
    pub hero_image_url: Option<String>,
    pub image_gallery: Option<Vec<String>>,
    pub image_source: Option<String>,
    pub condition: Option<String>,
    pub status: Option<String>,
}

/// The structured body of an error response.
#[derive(Debug, Clone)]
pub struct ErrorResponse {
    pub error: String,
    pub status: String,
}

fn clone_opt_string(o: &Option<String>) -> (r: Option<String>)
    ensures
        r == *o,
{
    match o {
        Some(s) => Some(s.clone()),
        None => None,
    }
}

} // verus!

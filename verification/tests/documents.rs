use sagepas::documents::{
    document_blob_name, document_kind, document_url, documents_base_url, generate_india_schedule,
    generate_us_declaration, render_policy_document, CivilDate, CoverageLine, CoverageValue,
    DocumentDates, DocumentKind, PagePlan,
};
use sagepas::ids::{CustomerId, PolicyId, ProductId, QuoteId, UserId};
use sagepas::insurance::{
    Currency, Customer, InsuranceType, NationalIdType, Policy, PolicyState, Product,
};

fn policy(currency: Currency, premium_cents: i64) -> Policy {
    Policy {
        id: PolicyId(1),
        quote_id: QuoteId(2),
        policy_number: "POL-2025-000001".to_string(),
        customer_id: CustomerId(3),
        product_id: ProductId(4),
        state: PolicyState::Active,
        premium_cents,
        currency,
        start_date: 0,
        end_date: 0,
        pdf_url: None,
        coverage_json: "{}".to_string(),
        created_at: 0,
    }
}

fn customer(country: &str, address: Option<&str>, national: Option<(&str, NationalIdType)>) -> Customer {
    Customer {
        id: CustomerId(3),
        user_id: UserId(5),
        name: "Asha Rao".to_string(),
        email: "asha@example.com".to_string(),
        phone: "+919876543210".to_string(),
        country: country.to_string(),
        currency: Currency::Inr,
        national_id: national.map(|(n, _)| n.to_string()),
        national_id_type: national.map(|(_, t)| t),
        address: address.map(|a| a.to_string()),
        created_at: 0,
    }
}

fn product() -> Product {
    Product {
        id: ProductId(4),
        name: "Motor Comprehensive".to_string(),
        insurance_type: InsuranceType::Auto,
        country: "IN".to_string(),
        currency: Currency::Inr,
        description: None,
    }
}

fn dates() -> DocumentDates {
    DocumentDates {
        start: CivilDate { year: 2025, month: 1, day: 15 },
        end: CivilDate { year: 2026, month: 1, day: 14 },
        created: CivilDate { year: 2025, month: 1, day: 10 },
    }
}

fn coverage() -> Vec<CoverageLine> {
    vec![
        CoverageLine {
            key: "bodily_injury_limit".to_string(),
            value: CoverageValue::Number("100000".to_string()),
        },
        CoverageLine {
            key: "deductible".to_string(),
            value: CoverageValue::Text("none".to_string()),
        },
        CoverageLine {
            key: "roadside".to_string(),
            value: CoverageValue::Other("true".to_string()),
        },
    ]
}

fn find<'a>(plan: &'a PagePlan, text: &str) -> Option<&'a sagepas::documents::TextPlacement> {
    plan.placements.iter().find(|p| p.text == text)
}

#[test]
fn us_declaration_lays_out_every_section() {
    let plan = generate_us_declaration(
        &policy(Currency::Usd, 123_450),
        &customer("US", Some("1 Main St"), None),
        &product(),
        &dates(),
        &coverage(),
    );
    assert_eq!(plan.title, "Policy Declaration");
    assert_eq!((plan.width_tenths, plan.height_tenths), (2159, 2794));
    // header 3, insured 2, address 2, product 2, period 2, table head 2,
    // coverage 3 x 2, premium 2, signature, date, footer
    assert_eq!(plan.placements.len(), 24);
    assert_eq!(plan.placements[0].text, "SageSure Insurance");
    assert!(plan.placements[0].bold);
    assert_eq!(find(&plan, "Policy Number: POL-2025-000001").unwrap().y_tenths, 2380);
    assert_eq!(find(&plan, "1 Main St").unwrap().y_tenths, 2170);
    assert_eq!(find(&plan, "01/15/2025  \u{2013}  01/14/2026").unwrap().y_tenths, 2010);
    let limit = find(&plan, "bodily injury limit").unwrap();
    assert_eq!((limit.x_tenths, limit.y_tenths, limit.bold), (200, 1770, false));
    assert_eq!(find(&plan, "$100000").unwrap().x_tenths, 1300);
    assert_eq!(find(&plan, "none").unwrap().y_tenths, 1700);
    assert_eq!(find(&plan, "true").unwrap().y_tenths, 1630);
    let premium = find(&plan, "$1234.50").unwrap();
    assert_eq!((premium.x_tenths, premium.y_tenths, premium.size_tenths), (850, 1480, 120));
    assert_eq!(find(&plan, "Date: 01/10/2025").unwrap().y_tenths, 1200);
    assert_eq!(plan.placements[23].y_tenths, 120);
}

#[test]
fn us_declaration_without_address_moves_up() {
    let plan = generate_us_declaration(
        &policy(Currency::Aed, 5),
        &customer("AE", None, None),
        &product(),
        &dates(),
        &Vec::new(),
    );
    assert_eq!(plan.placements.len(), 16);
    assert_eq!(find(&plan, "Product:").unwrap().y_tenths, 2170);
    assert!(find(&plan, "Address:").is_none());
    assert!(find(&plan, "AED0.05").is_some());
}

#[test]
fn india_schedule_shows_national_id_and_rupees() {
    let plan = generate_india_schedule(
        &policy(Currency::Inr, 999_999),
        &customer("IN", None, Some(("ABCDE1234F", NationalIdType::Pan))),
        &product(),
        &dates(),
        &coverage(),
    );
    assert_eq!(plan.title, "Policy Schedule");
    assert_eq!((plan.width_tenths, plan.height_tenths), (2100, 2970));
    assert_eq!(find(&plan, "PAN:").unwrap().y_tenths, 2240);
    assert_eq!(find(&plan, "ABCDE1234F").unwrap().x_tenths, 720);
    assert_eq!(find(&plan, "15/01/2025  to  14/01/2026").unwrap().y_tenths, 2080);
    assert_eq!(find(&plan, "Rs 100000").unwrap().y_tenths, 1840);
    assert_eq!(find(&plan, "Rs 9999.99").unwrap().x_tenths, 900);
    assert_eq!(find(&plan, "Date: 10/01/2025").is_some(), true);
    assert_eq!(
        plan.placements.last().unwrap().text,
        "SageSure Insurance India | info@sagesure.io | IRDAI Reg. No. XXXX"
    );
}

#[test]
fn india_schedule_labels_other_ids_generically() {
    let plan = generate_india_schedule(
        &policy(Currency::Inr, 100),
        &customer("IN", Some("MG Road"), Some(("X1", NationalIdType::Other))),
        &product(),
        &dates(),
        &Vec::new(),
    );
    assert!(find(&plan, "National ID:").is_some());
    assert!(find(&plan, "Aadhaar:").is_none());
}

#[test]
fn country_in_any_case_gets_the_india_schedule() {
    assert_eq!(document_kind("in"), DocumentKind::IndiaSchedule);
    assert_eq!(document_kind("IN"), DocumentKind::IndiaSchedule);
    assert_eq!(document_kind("US"), DocumentKind::UsDeclaration);
    assert_eq!(document_kind("IND"), DocumentKind::UsDeclaration);
    let plan = render_policy_document(
        &policy(Currency::Inr, 100),
        &customer("iN", None, None),
        &product(),
        &dates(),
        &Vec::new(),
    );
    assert_eq!(plan.title, "Policy Schedule");
}

#[test]
fn document_urls_are_built_from_account_container_and_number() {
    let base = documents_base_url("mystorage", "policy-documents");
    assert_eq!(base, "https://mystorage.blob.core.windows.net/policy-documents");
    let name = document_blob_name("POL-2025-000001");
    assert_eq!(name, "POL-2025-000001.pdf");
    assert_eq!(
        document_url(&base, &name),
        "https://mystorage.blob.core.windows.net/policy-documents/POL-2025-000001.pdf"
    );
}

use xstatistics::api::client::{operand_of, WolframClient, IMAGE_NAME_LEN};
use xstatistics::api::errors::ApiError;
use xstatistics::api::models::{Container, Image, Pod, PodId, QueryResult, SubPod};

fn image(src: &str) -> Image {
    Image {
        src: src.to_string(),
        alt: String::new(),
        title: String::new(),
        width: 10,
        height: 10,
        image_type: "Default".to_string(),
        content_type: "image/gif".to_string(),
    }
}

fn pod(id: &str, text: Option<&str>, img: Option<&str>) -> Pod {
    Pod {
        title: id.to_string(),
        id: id.to_string(),
        scanner: "Simplification".to_string(),
        error: false,
        sub_pods_amount: 1,
        sub_pods: vec![SubPod {
            title: String::new(),
            plain_text: text.map(|t| t.to_string()),
            img: img.map(image),
        }],
    }
}

fn container(pods: Vec<Pod>) -> Container {
    Container {
        result: QueryResult { success: true, error: false, pods_amount: pods.len() as u32, pods },
    }
}

#[test]
fn pod_names_are_variant_names() {
    assert_eq!(PodId::Result.to_string(), "Result");
    assert_eq!(PodId::ExpandedForm.to_string(), "ExpandedForm");
    assert_eq!(PodId::VisualRepresentationOfTheIntegral.to_string(), "VisualRepresentationOfTheIntegral");
    assert_eq!(PodId::ContourPlot.to_string(), "ContourPlot");
}

#[test]
fn requested_block_wins() {
    let c = container(vec![
        pod("Input", Some("in"), None),
        pod("Result", Some("res"), None),
        pod("ExpandedForm", Some("exp"), None),
    ]);
    assert_eq!(WolframClient::plain_text_from(&c, PodId::ExpandedForm), Ok("exp".to_string()));
    assert_eq!(WolframClient::target_pod(&c.result, PodId::ExpandedForm), Some(2));
}

#[test]
fn first_of_requested_kind_is_taken() {
    let c = container(vec![pod("Result", Some("one"), None), pod("Result", Some("two"), None)]);
    assert_eq!(WolframClient::plain_text_from(&c, PodId::Result), Ok("one".to_string()));
}

#[test]
fn priority_list_is_followed() {
    let c = container(vec![
        pod("Plot", Some("plot"), None),
        pod("Input", Some("in"), None),
        pod("AlternateForm", Some("alt"), None),
    ]);
    // Result and ExpandedForm are absent; AlternateForm comes before Input.
    assert_eq!(WolframClient::plain_text_from(&c, PodId::Result), Ok("alt".to_string()));
    let c = container(vec![pod("Plot", Some("plot"), None), pod("Input", Some("in"), None)]);
    assert_eq!(WolframClient::plain_text_from(&c, PodId::Result), Ok("in".to_string()));
}

#[test]
fn first_block_is_the_last_resort() {
    let c = container(vec![pod("Plot", Some("plot"), None), pod("NumberLine", Some("line"), None)]);
    assert_eq!(WolframClient::plain_text_from(&c, PodId::Result), Ok("plot".to_string()));
}

#[test]
fn missing_text_is_an_error() {
    let c = container(vec![]);
    assert_eq!(WolframClient::target_pod(&c.result, PodId::Result), None);
    assert_eq!(WolframClient::plain_text_from(&c, PodId::Result), Err(ApiError::PlainTextNotFound));
    let c = container(vec![pod("Result", None, Some("http://x/a.gif"))]);
    assert_eq!(WolframClient::plain_text_from(&c, PodId::Result), Err(ApiError::PlainTextNotFound));
    let mut p = pod("Result", Some("r"), None);
    p.sub_pods.clear();
    let c = container(vec![p, pod("Input", Some("in"), None)]);
    assert_eq!(WolframClient::plain_text_from(&c, PodId::Result), Err(ApiError::PlainTextNotFound));
}

#[test]
fn image_source_of_the_answer_block() {
    let c = container(vec![pod("Input", None, Some("http://x/in.gif")), pod("Result", None, Some("http://x/r.gif"))]);
    assert_eq!(WolframClient::image_source_from(&c, PodId::Result), Ok("http://x/r.gif".to_string()));
    let c = container(vec![pod("Result", Some("r"), None)]);
    assert_eq!(WolframClient::image_source_from(&c, PodId::Result), Err(ApiError::ImageNotFound));
}

#[test]
fn status_codes() {
    assert_eq!(WolframClient::check_status(200), Ok(()));
    assert_eq!(WolframClient::check_status(299), Ok(()));
    assert_eq!(WolframClient::check_status(199), Err(ApiError::Http(199)));
    assert_eq!(WolframClient::check_status(404), Err(ApiError::Http(404)));
    assert_eq!(WolframClient::check_status(501), Err(ApiError::Http(501)));
}

#[test]
fn unsuccessful_answers_are_refused() {
    let mut c = container(vec![pod("Result", Some("r"), None)]);
    assert!(WolframClient::accept_answer(c.clone()).is_ok());
    c.result.success = false;
    match WolframClient::accept_answer(c) {
        Err(ApiError::Wolfram(m)) => assert_eq!(m, "Wolfram Alpha returned success = false"),
        _ => panic!("expected a refusal"),
    }
}

#[test]
fn operand_is_the_part_after_the_last_equals_sign() {
    let client = WolframClient::new("KEY".to_string());
    assert_eq!(client.app_id(), "KEY");
    assert_eq!(client.operand_from_result("y = x/10 + 1/10"), "x/10 + 1/10");
    assert_eq!(client.operand_from_result("integral 0 dx = 0"), "0");
    assert_eq!(client.operand_from_result("  a = b = 3/5 "), "3/5");
    assert_eq!(client.operand_from_result("1/20"), "1/20");
    assert_eq!(client.operand_from_result("x = "), "");
}

#[test]
fn conditions_are_kept_whole() {
    assert_eq!(operand_of("  x^2/20 where a = 1/10 \n"), "x^2/20 where a = 1/10");
    assert_eq!(operand_of("somewhere = 3"), "3");
}

#[test]
fn image_names_are_random_alphanumerics() {
    let a = WolframClient::image_file_name();
    let b = WolframClient::image_file_name();
    assert_eq!(a.chars().count(), IMAGE_NAME_LEN);
    assert!(a.chars().all(|c| c.is_ascii_alphanumeric()));
    assert_eq!(b.len(), 16);
    assert_ne!(a, b);
}

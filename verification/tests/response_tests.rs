use speedreader::ApiResponse;
use speedreader::ApiResponseError;
use speedreader::Choice;
use speedreader::Content;
use speedreader::create_evaluation_prompt;
use speedreader::extract_ai_response;

#[test]
fn extract_takes_first_choice_content() {
    let resp = ApiResponse {
        choices: Some(vec![
            Choice { message: Some(Content { content: "Good summary.".to_string() }) },
            Choice { message: Some(Content { content: "ignored".to_string() }) },
        ]),
    };
    assert_eq!(extract_ai_response(&resp).unwrap(), "Good summary.");
}

#[test]
fn extract_rejects_missing_choices() {
    let resp = ApiResponse { choices: None };
    let err = extract_ai_response(&resp).unwrap_err();
    assert_eq!(err, ApiResponseError::MissingChoices);
    assert_eq!(err.message(), "Missing choices in API response");
}

#[test]
fn extract_rejects_empty_choices() {
    let resp = ApiResponse { choices: Some(Vec::new()) };
    let err = extract_ai_response(&resp).unwrap_err();
    assert_eq!(err, ApiResponseError::EmptyChoices);
    assert_eq!(err.message(), "Empty choices array in API response");
}

#[test]
fn extract_rejects_missing_content() {
    let resp = ApiResponse { choices: Some(vec![Choice { message: None }]) };
    let err = extract_ai_response(&resp).unwrap_err();
    assert_eq!(err, ApiResponseError::MissingContent);
    assert_eq!(err.message(), "Missing message content in API response");
}

#[test]
fn evaluation_prompt_embeds_inputs_and_rate() {
    let p = create_evaluation_prompt("my summary", "the text", 300);
    let expected = format!(
        "\nOriginal Text:\n\"\"\"\n{}\n\"\"\"\n\nUser Summary:\n\"\"\"\n{}\n\"\"\"\n\nWPM: {}\n\nBased on the Original Text, please evaluate the User Summary. Assess its comprehension based on:\n1. Accuracy: Does the summary correctly represent the information in the original text?\n2. Key Points Coverage: Does the summary include the main ideas and crucial supporting details?\n3. Completeness: How much of the core information is captured?\n4. Misinterpretations: Are there any points that are clearly misunderstood?\n\nProvide:\n- A qualitative rating (e.g., Excellent, Good, Fair, Poor).\n- A list of key points correctly captured in the summary.\n- A list of significant points from the original text that were missed or misrepresented in the summary.\n- A brief overall comment on the user's comprehension based on their WPM.\n        ",
        "the text", "my summary", 300
    );
    assert_eq!(p, expected);
}

//! The evaluation prompt: the request text that asks the remote model to
//! assess a reader's summary of the original text, given the rate it was
//! read at.

use vstd::prelude::*;

use crate::numfmt::spec_u64_digits;
use crate::numfmt::u64_to_string;

verus! {

/// The full prompt: the original text and the summary, each quoted, the
/// rate, and the fixed evaluation instructions.
pub open spec fn spec_evaluation_prompt(summary: Seq<char>, text: Seq<char>, wpm: int) -> Seq<
    char,
> {
    "\nOriginal Text:\n\"\"\"\n"@ + text + "\n\"\"\"\n\nUser Summary:\n\"\"\"\n"@ + summary
        + "\n\"\"\"\n\nWPM: "@ + spec_u64_digits(wpm)
        + "\n\nBased on the Original Text, please evaluate the User Summary. Assess its comprehension based on:\n1. Accuracy: Does the summary correctly represent the information in the original text?\n2. Key Points Coverage: Does the summary include the main ideas and crucial supporting details?\n3. Completeness: How much of the core information is captured?\n4. Misinterpretations: Are there any points that are clearly misunderstood?\n\nProvide:\n- A qualitative rating (e.g., Excellent, Good, Fair, Poor).\n- A list of key points correctly captured in the summary.\n- A list of significant points from the original text that were missed or misrepresented in the summary.\n- A brief overall comment on the user's comprehension based on their WPM.\n        "@
}

/// Build the evaluation prompt for a summary, the original text and the
/// rate the text was read at.
pub fn create_evaluation_prompt(summary: &str, text: &str, wpm: u64) -> (p: String)
    ensures
        p@ == spec_evaluation_prompt(summary@, text@, wpm as int),
{
    let mut p = "\nOriginal Text:\n\"\"\"\n".to_owned();
    p.append(text);
    p.append("\n\"\"\"\n\nUser Summary:\n\"\"\"\n");
    p.append(summary);
    p.append("\n\"\"\"\n\nWPM: ");
    let digits = u64_to_string(wpm);
    p.append(digits.as_str());
    p.append(
        "\n\nBased on the Original Text, please evaluate the User Summary. Assess its comprehension based on:\n1. Accuracy: Does the summary correctly represent the information in the original text?\n2. Key Points Coverage: Does the summary include the main ideas and crucial supporting details?\n3. Completeness: How much of the core information is captured?\n4. Misinterpretations: Are there any points that are clearly misunderstood?\n\nProvide:\n- A qualitative rating (e.g., Excellent, Good, Fair, Poor).\n- A list of key points correctly captured in the summary.\n- A list of significant points from the original text that were missed or misrepresented in the summary.\n- A brief overall comment on the user's comprehension based on their WPM.\n        ",
    );
    proof {
        assert(p@ =~= spec_evaluation_prompt(summary@, text@, wpm as int));
    }
    p
}

} // verus!

use vstd::prelude::*;

verus! {

/// Grounding rules appended to every navigator's system prompt.
pub const GROUNDING_RULES: &'static str = "
## Grounding Rules

You are a navigator that provides grounded answers based on your knowledge base.

**CRITICAL: Every answer must follow these rules:**

1. **Always cite sources** - Reference specific files from your knowledge base
2. **Quote directly** - Use exact quotes from documentation when possible
3. **Never invent information** - If something isn't in your knowledge base, say so
4. **File paths must exist** - Only reference files that actually exist
5. **Be specific** - Include section headings, line numbers when relevant
6. **Acknowledge uncertainty** - If confidence is low, explain why

**Source Citation Format:**
When referencing sources, always specify:
- `file`: Relative path from knowledge base (e.g., \"deployment/guide.md\")
- `section`: Specific heading or section (e.g., \"Prerequisites\")
- `relevance`: Brief explanation of why this source supports your answer

**Example Response Structure:**
```
Based on the deployment guide, you should run `make deploy`.

Sources:
- deployment/guide.md (Quick Start) - Contains the deploy command
- troubleshooting/common-issues.md (Deployment Failures) - Backup info
```
";

/// Self-configuration rules for navigators that carry plugins.
pub const SELF_CONFIG_RULES: &'static str = "
## Self-Configuration Rules

You can update your own configuration to adapt to user preferences.

**Available Self-Configuration Tools:**

1. `update_plugin_config` - Modify plugin settings
   - Parameters: plugin (slack|signal|github|email), updates (object), reason (string)
   - Example: Enable daily check-ins, change notification channels

2. `get_plugin_config` - Read current settings
   - Parameters: plugin (slack|signal|github|email|all)
   - Use this before making changes to understand current state

**Common Self-Configuration Patterns:**

- **Scheduling check-ins**: Update signal.nextCheckIn with ISO8601 timestamp
- **Channel management**: Update slack.channels array
- **Notification preferences**: Update notification types and frequencies
- **GitHub integration**: Update repository watch settings

**Guidelines:**
- Always explain what you're changing and why
- Use get_plugin_config before making changes
- Provide the reason parameter for audit trail
- Don't change settings without user request or clear need
";

pub const SYSTEM_PROMPT_HEAD: &'static str =
    "# Navigator System Prompt\n\nYou are an autonomous navigator with access to a curated knowledge base.\n\n**Knowledge Base Location:** `";

pub const SYSTEM_PROMPT_AFTER_PATH: &'static str = "`\n\n";

pub const ADDITIONAL_INSTRUCTIONS_HEAD: &'static str = "\n\n## Additional Instructions\n\n";

pub const ANSWER_PROMPT_HEAD: &'static str =
    "Please answer the following question based on your knowledge base.\n\n**Question:** ";

pub const ANSWER_PROMPT_TAIL: &'static str = "\n\n**Requirements:**\n1. Search your knowledge base for relevant information\n2. Cite specific files and sections that support your answer\n3. Provide a confidence score (0-1) based on:\n   - 0.9-1.0: Direct answer found in documentation\n   - 0.7-0.9: Strong inference from multiple sources\n   - 0.5-0.7: Partial information available\n   - 0.3-0.5: Tangentially related information only\n   - 0.0-0.3: No relevant information found\n\nUse the `submit_answer` tool to provide your response.\n";

pub const EXTRACT_SOURCES_HEAD: &'static str =
    "Extract all source references from the following text.\n\n**Text:**\n";

pub const EXTRACT_SOURCES_TAIL: &'static str = "\n\nFor each source mentioned, identify:\n1. The file path\n2. The section or heading\n3. Why it's relevant\n\nReturn the sources as a JSON array.\n";

pub const CONFIDENCE_PROMPT_HEAD: &'static str =
    "Evaluate the confidence level of this answer.\n\n**Answer:**\n";

pub const CONFIDENCE_PROMPT_MID: &'static str = "\n\n**Number of sources cited:** ";

pub const CONFIDENCE_PROMPT_TAIL: &'static str = "\n\nConsider:\n- Are the sources directly relevant?\n- Is the answer fully supported by the sources?\n- Are there any gaps or assumptions?\n\nReturn a confidence score between 0.0 and 1.0.\n";

/// The full system prompt of a navigator: header, knowledge-base
/// location, the grounding and self-configuration rules, and any
/// additional instructions.
pub fn create_navigator_system_prompt(
    knowledge_base_path: &str,
    additional_instructions: Option<&str>,
) -> (r: String)
    ensures
        r@ == SYSTEM_PROMPT_HEAD@ + knowledge_base_path@ + SYSTEM_PROMPT_AFTER_PATH@
            + GROUNDING_RULES@ + "\n\n"@ + SELF_CONFIG_RULES@ + (match additional_instructions {
            Some(i) => ADDITIONAL_INSTRUCTIONS_HEAD@ + i@,
            None => Seq::<char>::empty(),
        }),
{
    let mut out = String::from_str(SYSTEM_PROMPT_HEAD);
    out.append(knowledge_base_path);
    out.append(SYSTEM_PROMPT_AFTER_PATH);
    out.append(GROUNDING_RULES);
    out.append("\n\n");
    out.append(SELF_CONFIG_RULES);
    match additional_instructions {
        Some(instructions) => {
            out.append(ADDITIONAL_INSTRUCTIONS_HEAD);
            out.append(instructions);
        },
        None => {},
    }
    out
}

/// The first user message of a query: the fixed question-answering
/// template around the question.
pub fn create_answer_question_prompt(question: &str) -> (r: String)
    ensures
        r@ == ANSWER_PROMPT_HEAD@ + question@ + ANSWER_PROMPT_TAIL@,
{
    let mut out = String::from_str(ANSWER_PROMPT_HEAD);
    out.append(question);
    out.append(ANSWER_PROMPT_TAIL);
    out
}

/// A prompt asking the model to extract source references from text.
pub fn create_extract_sources_prompt(text: &str) -> (r: String)
    ensures
        r@ == EXTRACT_SOURCES_HEAD@ + text@ + EXTRACT_SOURCES_TAIL@,
{
    let mut out = String::from_str(EXTRACT_SOURCES_HEAD);
    out.append(text);
    out.append(EXTRACT_SOURCES_TAIL);
    out
}

/// A prompt asking the model to score an answer's confidence.
pub fn create_confidence_prompt(answer: &str, sources_count: usize) -> (r: String)
    ensures
        r@ == CONFIDENCE_PROMPT_HEAD@ + answer@ + CONFIDENCE_PROMPT_MID@
            + crate::strutil::dec_str(sources_count as int) + CONFIDENCE_PROMPT_TAIL@,
{
    let mut out = String::from_str(CONFIDENCE_PROMPT_HEAD);
    out.append(answer);
    out.append(CONFIDENCE_PROMPT_MID);
    let count = crate::strutil::u64_to_string(sources_count as u64);
    out.append(count.as_str());
    out.append(CONFIDENCE_PROMPT_TAIL);
    out
}

} // verus!

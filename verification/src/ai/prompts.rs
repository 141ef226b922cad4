//! Prompt construction for AI formatting of transcripts and rephrasing of text.
//!
//! Every prompt is specified as a concatenation of fixed text blocks and the
//! caller's inputs, so a contract states the exact prompt that is produced.
use vstd::prelude::*;

use crate::text::{
    chars_of, join, join_strings, push_str, str_eq, to_lowercase, trim, trim_str, unicode_lowercase,
};

verus! {

/// The base instructions up to the name of the output language.
pub const BASE_PROMPT_HEAD: &'static str = r#"You are an expert post-processor that converts raw voice transcripts into polished written "#;

/// The base instructions after the name of the output language.
pub const BASE_PROMPT_TAIL: &'static str = r#".

## Self-Corrections & Intent
Resolve self-corrections using last-intent wins: delete retracted parts, keep only the final intended phrasing.
- Prefer the last explicit directive ("we will", "let's", "I'll").
- For conflicting recipients/places/dates/numbers, keep the last stated value.
- Remove "or/maybe" alternatives that precede a final choice.
- If still uncertain, output the safest minimal intent without inventing details.

## Intent Extraction
Focus on what the speaker MEANT, not what they literally said:
- Reconstruct incomplete thoughts into complete, clear sentences.
- When the speaker circles around a point, distill to the core message.
- Preserve the speaker's actual opinions, decisions, and facts — never add your own.

## Verbal Emphasis
Convert spoken emphasis patterns to natural written emphasis:
- Repeated words ("really really important") → strong written emphasis (e.g., "very important" or "critically important").
- Spoken stress markers ("literally", "absolutely", "seriously") → keep only when they add genuine meaning, remove when used as filler.

## Structural Formatting
Intelligently format based on content shape:
- Multiple distinct points or items → use bullet points or a numbered list.
- A single flowing thought → use clean paragraph(s).
- Mixed content → combine paragraphs with lists where natural.
- Short responses (one or two sentences) → keep as plain text, no lists.

## Topic Transitions
When the speaker jumps between topics:
- Add smooth, natural transitions between distinct subjects.
- If topics are unrelated, separate with paragraph breaks.
- Never merge unrelated topics into one sentence.

## Tone & Style
- Preserve the speaker's register (casual, formal, technical) — don't force formality.
- Remove fillers (um, uh, like, you know), false starts, and verbal tics.
- Fix grammar, punctuation, capitalization, and spacing.
- Normalize obvious names/brands/terms when unambiguous; if uncertain, keep generic.
- Format numbers/dates/times naturally. Handle dictation commands only when explicitly said (e.g., "period", "new line").

Output only the polished text."#;

/// Separator between two blocks of a prompt.
pub const BLOCK_BREAK: &'static str = "\n\n";

/// Header that introduces the transcript.
pub const TRANSCRIPT_HEADER: &'static str = "\n\nTranscribed text:\n";

/// Label of the optional context block.
pub const CONTEXT_LABEL: &'static str = "\n\nContext: ";

/// Label of the optional vocabulary block.
pub const VOCABULARY_LABEL: &'static str = "\n\nAlways use these exact terms/spellings: ";

/// Separator between vocabulary terms.
pub const VOCABULARY_SEPARATOR: &'static str = ", ";

/// Label of the optional user instructions.
pub const INSTRUCTIONS_LABEL: &'static str = "\n\nAdditional instructions: ";

/// Language used when none is requested or the code is unknown.
pub const DEFAULT_LANGUAGE: &'static str = "English";

/// Transformation layer of the Prompts preset.
pub const PROMPTS_TRANSFORM: &'static str = r#"Now transform the cleaned text into a concise AI prompt:
- Classify as Request, Question, or Task.
- Add only essential missing what/how/why.
- Include constraints and success criteria if relevant.
- Specify output format when helpful.
- Preserve all technical details; do not invent any.
Return only the enhanced prompt."#;

/// Transformation layer of the Email preset.
pub const EMAIL_TRANSFORM: &'static str = r#"Now format the cleaned text as an email:
- Subject: specific and action-oriented.
- Greeting: Hi/Dear/Hello [Name].
- Body: short paragraphs; lead with the key info or ask.
- If it's a request, include action items and deadlines if present.
- Match tone (formal/casual) to the source.
- Closing: appropriate sign-off; use [Your Name].
Return only the formatted email."#;

/// Transformation layer of the Commit preset.
pub const COMMIT_TRANSFORM: &'static str = r#"Now convert the cleaned text to a Conventional Commit:
Format: type(scope): description
Types: feat, fix, docs, style, refactor, perf, test, chore, build, ci
Rules: present tense, no period, ≤72 chars; add ! for breaking changes.
Return only the commit message."#;

/// Transformation layer of the Notes preset.
pub const NOTES_TRANSFORM: &'static str = r#"Now restructure the cleaned text as organized notes:
- Use bullet points (•) for key items, observations, and action items.
- Group related points under short, clear headers if multiple topics exist.
- Use numbered lists for sequences, steps, or priorities.
- Keep each point concise — one idea per bullet.
- Preserve all factual details; do not add information.
- If the speech is a single topic, use bullets without headers.
Return only the formatted notes."#;

/// Transformation layer of the Technical preset.
pub const TECHNICAL_TRANSFORM: &'static str = r#"Now rewrite the cleaned text in professional technical style:
- Use precise, unambiguous language.
- Formal tone — avoid colloquialisms, slang, and casual phrasing.
- Structure with clear paragraphs; one idea per paragraph.
- Preserve all technical terms, acronyms, and specific details exactly.
- Use active voice where possible.
- If the content describes steps or procedures, use numbered lists.
Return only the rewritten text."#;

/// Transformation layer of the Chat preset.
pub const CHAT_TRANSFORM: &'static str = r#"Now rewrite the cleaned text as a casual chat message:
- Keep it friendly, natural, and conversational.
- Use contractions (I'm, don't, can't, etc.).
- Short sentences. Match the energy of the original speech.
- It's fine to start sentences with "So", "Yeah", "Also", etc. when natural.
- No formal structure, headers, or bullet points unless the speaker was listing things.
- Keep it brief — chat messages should feel quick to read.
Return only the chat message."#;

/// Transformation layer of the Tweet preset.
pub const TWEET_TRANSFORM: &'static str = r#"Now condense the cleaned text into a concise social media post:
- Maximum impact in minimum words. Be punchy and direct.
- Aim for under 280 characters when possible.
- Capture the core message or opinion — drop supporting details.
- No hashtags unless the speaker explicitly mentioned them.
- No emojis unless the speaker's tone strongly warrants one.
Return only the post text."#;

/// The language name for an ISO 639-1 code that is already lower-case.
pub open spec fn language_name(code: Seq<char>) -> Seq<char> {
    if code.len() == 2 {
        language_of_letters(code[0], code[1])
    } else {
        DEFAULT_LANGUAGE@
    }
}

/// The language named by the two letters of a lower-case ISO 639-1 code;
/// English for codes not in the table.
pub open spec fn language_of_letters(a: char, b: char) -> Seq<char> {
    match (a, b) {
        ('e', 'n') => "English"@,
        ('e', 's') => "Spanish"@,
        ('f', 'r') => "French"@,
        ('d', 'e') => "German"@,
        ('i', 't') => "Italian"@,
        ('p', 't') => "Portuguese"@,
        ('n', 'l') => "Dutch"@,
        ('p', 'l') => "Polish"@,
        ('r', 'u') => "Russian"@,
        ('j', 'a') => "Japanese"@,
        ('k', 'o') => "Korean"@,
        ('z', 'h') => "Chinese"@,
        ('a', 'r') => "Arabic"@,
        ('h', 'i') => "Hindi"@,
        ('t', 'r') => "Turkish"@,
        ('v', 'i') => "Vietnamese"@,
        ('t', 'h') => "Thai"@,
        ('i', 'd') => "Indonesian"@,
        ('m', 's') => "Malay"@,
        ('s', 'v') => "Swedish"@,
        ('d', 'a') => "Danish"@,
        ('n', 'o') => "Norwegian"@,
        ('f', 'i') => "Finnish"@,
        ('c', 's') => "Czech"@,
        ('s', 'k') => "Slovak"@,
        ('u', 'k') => "Ukrainian"@,
        ('e', 'l') => "Greek"@,
        ('h', 'e') => "Hebrew"@,
        ('r', 'o') => "Romanian"@,
        ('h', 'u') => "Hungarian"@,
        ('b', 'g') => "Bulgarian"@,
        ('h', 'r') => "Croatian"@,
        ('s', 'r') => "Serbian"@,
        ('s', 'l') => "Slovenian"@,
        ('l', 't') => "Lithuanian"@,
        ('l', 'v') => "Latvian"@,
        ('e', 't') => "Estonian"@,
        ('b', 'n') => "Bengali"@,
        ('t', 'a') => "Tamil"@,
        ('t', 'e') => "Telugu"@,
        ('m', 'r') => "Marathi"@,
        ('g', 'u') => "Gujarati"@,
        ('k', 'n') => "Kannada"@,
        ('m', 'l') => "Malayalam"@,
        ('p', 'a') => "Punjabi"@,
        ('u', 'r') => "Urdu"@,
        ('f', 'a') => "Persian"@,
        ('s', 'w') => "Swahili"@,
        ('a', 'f') => "Afrikaans"@,
        ('c', 'a') => "Catalan"@,
        ('e', 'u') => "Basque"@,
        ('g', 'l') => "Galician"@,
        ('c', 'y') => "Welsh"@,
        ('i', 's') => "Icelandic"@,
        ('m', 't') => "Maltese"@,
        ('s', 'q') => "Albanian"@,
        ('m', 'k') => "Macedonian"@,
        ('b', 'e') => "Belarusian"@,
        ('k', 'a') => "Georgian"@,
        ('h', 'y') => "Armenian"@,
        ('a', 'z') => "Azerbaijani"@,
        ('k', 'k') => "Kazakh"@,
        ('u', 'z') => "Uzbek"@,
        ('t', 'l') => "Tagalog"@,
        ('n', 'e') => "Nepali"@,
        ('s', 'i') => "Sinhala"@,
        ('k', 'm') => "Khmer"@,
        ('l', 'o') => "Lao"@,
        ('m', 'y') => "Burmese"@,
        ('m', 'n') => "Mongolian"@,
        _ => DEFAULT_LANGUAGE@,
    }
}

/// The language name for a lower-case ISO 639-1 code; unknown codes give English.
pub fn language_name_for(code: &str) -> (r: &'static str)
    ensures
        r@ == language_name(code@),
{
    let v = chars_of(code);
    if v.len() != 2 {
        return DEFAULT_LANGUAGE;
    }
    match (v[0], v[1]) {
        ('e', 'n') => "English",
        ('e', 's') => "Spanish",
        ('f', 'r') => "French",
        ('d', 'e') => "German",
        ('i', 't') => "Italian",
        ('p', 't') => "Portuguese",
        ('n', 'l') => "Dutch",
        ('p', 'l') => "Polish",
        ('r', 'u') => "Russian",
        ('j', 'a') => "Japanese",
        ('k', 'o') => "Korean",
        ('z', 'h') => "Chinese",
        ('a', 'r') => "Arabic",
        ('h', 'i') => "Hindi",
        ('t', 'r') => "Turkish",
        ('v', 'i') => "Vietnamese",
        ('t', 'h') => "Thai",
        ('i', 'd') => "Indonesian",
        ('m', 's') => "Malay",
        ('s', 'v') => "Swedish",
        ('d', 'a') => "Danish",
        ('n', 'o') => "Norwegian",
        ('f', 'i') => "Finnish",
        ('c', 's') => "Czech",
        ('s', 'k') => "Slovak",
        ('u', 'k') => "Ukrainian",
        ('e', 'l') => "Greek",
        ('h', 'e') => "Hebrew",
        ('r', 'o') => "Romanian",
        ('h', 'u') => "Hungarian",
        ('b', 'g') => "Bulgarian",
        ('h', 'r') => "Croatian",
        ('s', 'r') => "Serbian",
        ('s', 'l') => "Slovenian",
        ('l', 't') => "Lithuanian",
        ('l', 'v') => "Latvian",
        ('e', 't') => "Estonian",
        ('b', 'n') => "Bengali",
        ('t', 'a') => "Tamil",
        ('t', 'e') => "Telugu",
        ('m', 'r') => "Marathi",
        ('g', 'u') => "Gujarati",
        ('k', 'n') => "Kannada",
        ('m', 'l') => "Malayalam",
        ('p', 'a') => "Punjabi",
        ('u', 'r') => "Urdu",
        ('f', 'a') => "Persian",
        ('s', 'w') => "Swahili",
        ('a', 'f') => "Afrikaans",
        ('c', 'a') => "Catalan",
        ('e', 'u') => "Basque",
        ('g', 'l') => "Galician",
        ('c', 'y') => "Welsh",
        ('i', 's') => "Icelandic",
        ('m', 't') => "Maltese",
        ('s', 'q') => "Albanian",
        ('m', 'k') => "Macedonian",
        ('b', 'e') => "Belarusian",
        ('k', 'a') => "Georgian",
        ('h', 'y') => "Armenian",
        ('a', 'z') => "Azerbaijani",
        ('k', 'k') => "Kazakh",
        ('u', 'z') => "Uzbek",
        ('t', 'l') => "Tagalog",
        ('n', 'e') => "Nepali",
        ('s', 'i') => "Sinhala",
        ('k', 'm') => "Khmer",
        ('l', 'o') => "Lao",
        ('m', 'y') => "Burmese",
        ('m', 'n') => "Mongolian",
        _ => DEFAULT_LANGUAGE,
    }
}
/// Instructions of the Professional rephrase style.
pub const PROFESSIONAL_STYLE: &'static str = "Rewrite the following text in a professional, polished style:\n\
            - Use formal, precise language appropriate for business or professional contexts.\n\
            - Eliminate casual phrasing, slang, and colloquialisms.\n\
            - Ensure clear, confident sentence structure.\n\
            - Maintain the original meaning and intent exactly — do not add or remove information.";

/// Instructions of the Concise rephrase style.
pub const CONCISE_STYLE: &'static str = "Rewrite the following text to be more concise and direct:\n\
            - Remove redundant words, filler phrases, and unnecessary qualifiers.\n\
            - Use shorter, more impactful sentences.\n\
            - Preserve all key information — do not omit important details.\n\
            - Maintain the original meaning and intent exactly.";

/// Instructions of the Friendly rephrase style.
pub const FRIENDLY_STYLE: &'static str = "Rewrite the following text with a warm, friendly, approachable tone:\n\
            - Use conversational language that feels personal and engaging.\n\
            - Contractions are welcome (I'm, we're, you'll, etc.).\n\
            - Keep the energy positive and inviting.\n\
            - Maintain the original meaning and intent exactly — do not add or remove information.";

/// Instructions of the FixGrammar rephrase style.
pub const FIX_GRAMMAR_STYLE: &'static str = "Fix the grammar, spelling, and punctuation in the following text:\n\
            - Correct all spelling mistakes.\n\
            - Fix grammatical errors (subject-verb agreement, tense consistency, article usage, etc.).\n\
            - Correct punctuation and capitalization.\n\
            - Make MINIMAL changes — preserve the author's voice and style as much as possible.\n\
            - Do not rewrite sentences unless they are grammatically broken.";

/// Instructions of the Elaborate rephrase style.
pub const ELABORATE_STYLE: &'static str = "Expand and elaborate on the following text:\n\
            - Add relevant detail, context, and explanation to make the content richer.\n\
            - Expand brief points into fuller sentences or paragraphs.\n\
            - Maintain the original meaning and intent — only add information that is logically consistent.\n\
            - Do not introduce unrelated topics or invent facts.";
/// Opening of every rephrase prompt, up to the output language.
pub const REPHRASE_HEAD: &'static str = "You are an expert writing assistant. Your task is to rephrase written text while preserving its meaning.\nOutput language: ";

/// Text between the output language and the style instructions of a rephrase prompt.
pub const REPHRASE_MIDDLE: &'static str = ".\nReturn ONLY the rephrased text \u{2014} no explanations, no labels, no quotes.\n\n";

/// Header that introduces the text to rephrase.
pub const REPHRASE_TEXT_HEADER: &'static str = "\n\nText to rephrase:\n";

/// The ISO 639-1 codes that prompts know, each with its language.
pub open spec fn iso_639_1_languages() -> Seq<((char, char), Seq<char>)> {
    seq![
        (('e', 'n'), "English"@),
        (('e', 's'), "Spanish"@),
        (('f', 'r'), "French"@),
        (('d', 'e'), "German"@),
        (('i', 't'), "Italian"@),
        (('p', 't'), "Portuguese"@),
        (('n', 'l'), "Dutch"@),
        (('p', 'l'), "Polish"@),
        (('r', 'u'), "Russian"@),
        (('j', 'a'), "Japanese"@),
        (('k', 'o'), "Korean"@),
        (('z', 'h'), "Chinese"@),
        (('a', 'r'), "Arabic"@),
        (('h', 'i'), "Hindi"@),
        (('t', 'r'), "Turkish"@),
        (('v', 'i'), "Vietnamese"@),
        (('t', 'h'), "Thai"@),
        (('i', 'd'), "Indonesian"@),
        (('m', 's'), "Malay"@),
        (('s', 'v'), "Swedish"@),
        (('d', 'a'), "Danish"@),
        (('n', 'o'), "Norwegian"@),
        (('f', 'i'), "Finnish"@),
        (('c', 's'), "Czech"@),
        (('s', 'k'), "Slovak"@),
        (('u', 'k'), "Ukrainian"@),
        (('e', 'l'), "Greek"@),
        (('h', 'e'), "Hebrew"@),
        (('r', 'o'), "Romanian"@),
        (('h', 'u'), "Hungarian"@),
        (('b', 'g'), "Bulgarian"@),
        (('h', 'r'), "Croatian"@),
        (('s', 'r'), "Serbian"@),
        (('s', 'l'), "Slovenian"@),
        (('l', 't'), "Lithuanian"@),
        (('l', 'v'), "Latvian"@),
        (('e', 't'), "Estonian"@),
        (('b', 'n'), "Bengali"@),
        (('t', 'a'), "Tamil"@),
        (('t', 'e'), "Telugu"@),
        (('m', 'r'), "Marathi"@),
        (('g', 'u'), "Gujarati"@),
        (('k', 'n'), "Kannada"@),
        (('m', 'l'), "Malayalam"@),
        (('p', 'a'), "Punjabi"@),
        (('u', 'r'), "Urdu"@),
        (('f', 'a'), "Persian"@),
        (('s', 'w'), "Swahili"@),
        (('a', 'f'), "Afrikaans"@),
        (('c', 'a'), "Catalan"@),
        (('e', 'u'), "Basque"@),
        (('g', 'l'), "Galician"@),
        (('c', 'y'), "Welsh"@),
        (('i', 's'), "Icelandic"@),
        (('m', 't'), "Maltese"@),
        (('s', 'q'), "Albanian"@),
        (('m', 'k'), "Macedonian"@),
        (('b', 'e'), "Belarusian"@),
        (('k', 'a'), "Georgian"@),
        (('h', 'y'), "Armenian"@),
        (('a', 'z'), "Azerbaijani"@),
        (('k', 'k'), "Kazakh"@),
        (('u', 'z'), "Uzbek"@),
        (('t', 'l'), "Tagalog"@),
        (('n', 'e'), "Nepali"@),
        (('s', 'i'), "Sinhala"@),
        (('k', 'm'), "Khmer"@),
        (('l', 'o'), "Lao"@),
        (('m', 'y'), "Burmese"@),
        (('m', 'n'), "Mongolian"@),
    ]
}

/// Each code of the table names its own language (`it` is Italian), in any
/// letter case since the code is lower-cased first; a two-letter code
/// outside the table, and any text of another length, gives English.
pub proof fn lemma_language_codes_name_their_languages(code: Seq<char>)
    ensures
        forall|i: int|
            0 <= i < iso_639_1_languages().len() ==> language_name(
                seq![(#[trigger] iso_639_1_languages()[i]).0.0, iso_639_1_languages()[i].0.1],
            ) == iso_639_1_languages()[i].1,
        forall|i: int|
            0 <= i < iso_639_1_languages().len() && unicode_lowercase(code) == seq![
                (#[trigger] iso_639_1_languages()[i]).0.0,
                iso_639_1_languages()[i].0.1,
            ] ==> language_for_code(code) == iso_639_1_languages()[i].1,
        (forall|i: int|
            0 <= i < iso_639_1_languages().len() ==> #[trigger] iso_639_1_languages()[i].0 != (
                code[0],
                code[1],
            )) ==> language_name(code) == DEFAULT_LANGUAGE@,
        code.len() != 2 ==> language_name(code) == DEFAULT_LANGUAGE@,
{
    let t = iso_639_1_languages();
    assert forall|i: int| 0 <= i < t.len() implies language_name(
        seq![(#[trigger] t[i]).0.0, t[i].0.1],
    ) == t[i].1 by {
        if i == 0 {
            assert(t[0] == (('e', 'n'), "English"@));
        }
        else if i == 1 {
            assert(t[1] == (('e', 's'), "Spanish"@));
        }
        else if i == 2 {
            assert(t[2] == (('f', 'r'), "French"@));
        }
        else if i == 3 {
            assert(t[3] == (('d', 'e'), "German"@));
        }
        else if i == 4 {
            assert(t[4] == (('i', 't'), "Italian"@));
        }
        else if i == 5 {
            assert(t[5] == (('p', 't'), "Portuguese"@));
        }
        else if i == 6 {
            assert(t[6] == (('n', 'l'), "Dutch"@));
        }
        else if i == 7 {
            assert(t[7] == (('p', 'l'), "Polish"@));
        }
        else if i == 8 {
            assert(t[8] == (('r', 'u'), "Russian"@));
        }
        else if i == 9 {
            assert(t[9] == (('j', 'a'), "Japanese"@));
        }
        else if i == 10 {
            assert(t[10] == (('k', 'o'), "Korean"@));
        }
        else if i == 11 {
            assert(t[11] == (('z', 'h'), "Chinese"@));
        }
        else if i == 12 {
            assert(t[12] == (('a', 'r'), "Arabic"@));
        }
        else if i == 13 {
            assert(t[13] == (('h', 'i'), "Hindi"@));
        }
        else if i == 14 {
            assert(t[14] == (('t', 'r'), "Turkish"@));
        }
        else if i == 15 {
            assert(t[15] == (('v', 'i'), "Vietnamese"@));
        }
        else if i == 16 {
            assert(t[16] == (('t', 'h'), "Thai"@));
        }
        else if i == 17 {
            assert(t[17] == (('i', 'd'), "Indonesian"@));
        }
        else if i == 18 {
            assert(t[18] == (('m', 's'), "Malay"@));
        }
        else if i == 19 {
            assert(t[19] == (('s', 'v'), "Swedish"@));
        }
        else if i == 20 {
            assert(t[20] == (('d', 'a'), "Danish"@));
        }
        else if i == 21 {
            assert(t[21] == (('n', 'o'), "Norwegian"@));
        }
        else if i == 22 {
            assert(t[22] == (('f', 'i'), "Finnish"@));
        }
        else if i == 23 {
            assert(t[23] == (('c', 's'), "Czech"@));
        }
        else if i == 24 {
            assert(t[24] == (('s', 'k'), "Slovak"@));
        }
        else if i == 25 {
            assert(t[25] == (('u', 'k'), "Ukrainian"@));
        }
        else if i == 26 {
            assert(t[26] == (('e', 'l'), "Greek"@));
        }
        else if i == 27 {
            assert(t[27] == (('h', 'e'), "Hebrew"@));
        }
        else if i == 28 {
            assert(t[28] == (('r', 'o'), "Romanian"@));
        }
        else if i == 29 {
            assert(t[29] == (('h', 'u'), "Hungarian"@));
        }
        else if i == 30 {
            assert(t[30] == (('b', 'g'), "Bulgarian"@));
        }
        else if i == 31 {
            assert(t[31] == (('h', 'r'), "Croatian"@));
        }
        else if i == 32 {
            assert(t[32] == (('s', 'r'), "Serbian"@));
        }
        else if i == 33 {
            assert(t[33] == (('s', 'l'), "Slovenian"@));
        }
        else if i == 34 {
            assert(t[34] == (('l', 't'), "Lithuanian"@));
        }
        else if i == 35 {
            assert(t[35] == (('l', 'v'), "Latvian"@));
        }
        else if i == 36 {
            assert(t[36] == (('e', 't'), "Estonian"@));
        }
        else if i == 37 {
            assert(t[37] == (('b', 'n'), "Bengali"@));
        }
        else if i == 38 {
            assert(t[38] == (('t', 'a'), "Tamil"@));
        }
        else if i == 39 {
            assert(t[39] == (('t', 'e'), "Telugu"@));
        }
        else if i == 40 {
            assert(t[40] == (('m', 'r'), "Marathi"@));
        }
        else if i == 41 {
            assert(t[41] == (('g', 'u'), "Gujarati"@));
        }
        else if i == 42 {
            assert(t[42] == (('k', 'n'), "Kannada"@));
        }
        else if i == 43 {
            assert(t[43] == (('m', 'l'), "Malayalam"@));
        }
        else if i == 44 {
            assert(t[44] == (('p', 'a'), "Punjabi"@));
        }
        else if i == 45 {
            assert(t[45] == (('u', 'r'), "Urdu"@));
        }
        else if i == 46 {
            assert(t[46] == (('f', 'a'), "Persian"@));
        }
        else if i == 47 {
            assert(t[47] == (('s', 'w'), "Swahili"@));
        }
        else if i == 48 {
            assert(t[48] == (('a', 'f'), "Afrikaans"@));
        }
        else if i == 49 {
            assert(t[49] == (('c', 'a'), "Catalan"@));
        }
        else if i == 50 {
            assert(t[50] == (('e', 'u'), "Basque"@));
        }
        else if i == 51 {
            assert(t[51] == (('g', 'l'), "Galician"@));
        }
        else if i == 52 {
            assert(t[52] == (('c', 'y'), "Welsh"@));
        }
        else if i == 53 {
            assert(t[53] == (('i', 's'), "Icelandic"@));
        }
        else if i == 54 {
            assert(t[54] == (('m', 't'), "Maltese"@));
        }
        else if i == 55 {
            assert(t[55] == (('s', 'q'), "Albanian"@));
        }
        else if i == 56 {
            assert(t[56] == (('m', 'k'), "Macedonian"@));
        }
        else if i == 57 {
            assert(t[57] == (('b', 'e'), "Belarusian"@));
        }
        else if i == 58 {
            assert(t[58] == (('k', 'a'), "Georgian"@));
        }
        else if i == 59 {
            assert(t[59] == (('h', 'y'), "Armenian"@));
        }
        else if i == 60 {
            assert(t[60] == (('a', 'z'), "Azerbaijani"@));
        }
        else if i == 61 {
            assert(t[61] == (('k', 'k'), "Kazakh"@));
        }
        else if i == 62 {
            assert(t[62] == (('u', 'z'), "Uzbek"@));
        }
        else if i == 63 {
            assert(t[63] == (('t', 'l'), "Tagalog"@));
        }
        else if i == 64 {
            assert(t[64] == (('n', 'e'), "Nepali"@));
        }
        else if i == 65 {
            assert(t[65] == (('s', 'i'), "Sinhala"@));
        }
        else if i == 66 {
            assert(t[66] == (('k', 'm'), "Khmer"@));
        }
        else if i == 67 {
            assert(t[67] == (('l', 'o'), "Lao"@));
        }
        else if i == 68 {
            assert(t[68] == (('m', 'y'), "Burmese"@));
        }
        else if i == 69 {
            assert(t[69] == (('m', 'n'), "Mongolian"@));
        }
    }
    if code.len() == 2 && language_of_letters(code[0], code[1]) != DEFAULT_LANGUAGE@ {
        let a = code[0];
        let b = code[1];
        if a == 'e' && b == 'n' {
            assert(t[0].0 == (a, b));
        }
        else if a == 'e' && b == 's' {
            assert(t[1].0 == (a, b));
        }
        else if a == 'f' && b == 'r' {
            assert(t[2].0 == (a, b));
        }
        else if a == 'd' && b == 'e' {
            assert(t[3].0 == (a, b));
        }
        else if a == 'i' && b == 't' {
            assert(t[4].0 == (a, b));
        }
        else if a == 'p' && b == 't' {
            assert(t[5].0 == (a, b));
        }
        else if a == 'n' && b == 'l' {
            assert(t[6].0 == (a, b));
        }
        else if a == 'p' && b == 'l' {
            assert(t[7].0 == (a, b));
        }
        else if a == 'r' && b == 'u' {
            assert(t[8].0 == (a, b));
        }
        else if a == 'j' && b == 'a' {
            assert(t[9].0 == (a, b));
        }
        else if a == 'k' && b == 'o' {
            assert(t[10].0 == (a, b));
        }
        else if a == 'z' && b == 'h' {
            assert(t[11].0 == (a, b));
        }
        else if a == 'a' && b == 'r' {
            assert(t[12].0 == (a, b));
        }
        else if a == 'h' && b == 'i' {
            assert(t[13].0 == (a, b));
        }
        else if a == 't' && b == 'r' {
            assert(t[14].0 == (a, b));
        }
        else if a == 'v' && b == 'i' {
            assert(t[15].0 == (a, b));
        }
        else if a == 't' && b == 'h' {
            assert(t[16].0 == (a, b));
        }
        else if a == 'i' && b == 'd' {
            assert(t[17].0 == (a, b));
        }
        else if a == 'm' && b == 's' {
            assert(t[18].0 == (a, b));
        }
        else if a == 's' && b == 'v' {
            assert(t[19].0 == (a, b));
        }
        else if a == 'd' && b == 'a' {
            assert(t[20].0 == (a, b));
        }
        else if a == 'n' && b == 'o' {
            assert(t[21].0 == (a, b));
        }
        else if a == 'f' && b == 'i' {
            assert(t[22].0 == (a, b));
        }
        else if a == 'c' && b == 's' {
            assert(t[23].0 == (a, b));
        }
        else if a == 's' && b == 'k' {
            assert(t[24].0 == (a, b));
        }
        else if a == 'u' && b == 'k' {
            assert(t[25].0 == (a, b));
        }
        else if a == 'e' && b == 'l' {
            assert(t[26].0 == (a, b));
        }
        else if a == 'h' && b == 'e' {
            assert(t[27].0 == (a, b));
        }
        else if a == 'r' && b == 'o' {
            assert(t[28].0 == (a, b));
        }
        else if a == 'h' && b == 'u' {
            assert(t[29].0 == (a, b));
        }
        else if a == 'b' && b == 'g' {
            assert(t[30].0 == (a, b));
        }
        else if a == 'h' && b == 'r' {
            assert(t[31].0 == (a, b));
        }
        else if a == 's' && b == 'r' {
            assert(t[32].0 == (a, b));
        }
        else if a == 's' && b == 'l' {
            assert(t[33].0 == (a, b));
        }
        else if a == 'l' && b == 't' {
            assert(t[34].0 == (a, b));
        }
        else if a == 'l' && b == 'v' {
            assert(t[35].0 == (a, b));
        }
        else if a == 'e' && b == 't' {
            assert(t[36].0 == (a, b));
        }
        else if a == 'b' && b == 'n' {
            assert(t[37].0 == (a, b));
        }
        else if a == 't' && b == 'a' {
            assert(t[38].0 == (a, b));
        }
        else if a == 't' && b == 'e' {
            assert(t[39].0 == (a, b));
        }
        else if a == 'm' && b == 'r' {
            assert(t[40].0 == (a, b));
        }
        else if a == 'g' && b == 'u' {
            assert(t[41].0 == (a, b));
        }
        else if a == 'k' && b == 'n' {
            assert(t[42].0 == (a, b));
        }
        else if a == 'm' && b == 'l' {
            assert(t[43].0 == (a, b));
        }
        else if a == 'p' && b == 'a' {
            assert(t[44].0 == (a, b));
        }
        else if a == 'u' && b == 'r' {
            assert(t[45].0 == (a, b));
        }
        else if a == 'f' && b == 'a' {
            assert(t[46].0 == (a, b));
        }
        else if a == 's' && b == 'w' {
            assert(t[47].0 == (a, b));
        }
        else if a == 'a' && b == 'f' {
            assert(t[48].0 == (a, b));
        }
        else if a == 'c' && b == 'a' {
            assert(t[49].0 == (a, b));
        }
        else if a == 'e' && b == 'u' {
            assert(t[50].0 == (a, b));
        }
        else if a == 'g' && b == 'l' {
            assert(t[51].0 == (a, b));
        }
        else if a == 'c' && b == 'y' {
            assert(t[52].0 == (a, b));
        }
        else if a == 'i' && b == 's' {
            assert(t[53].0 == (a, b));
        }
        else if a == 'm' && b == 't' {
            assert(t[54].0 == (a, b));
        }
        else if a == 's' && b == 'q' {
            assert(t[55].0 == (a, b));
        }
        else if a == 'm' && b == 'k' {
            assert(t[56].0 == (a, b));
        }
        else if a == 'b' && b == 'e' {
            assert(t[57].0 == (a, b));
        }
        else if a == 'k' && b == 'a' {
            assert(t[58].0 == (a, b));
        }
        else if a == 'h' && b == 'y' {
            assert(t[59].0 == (a, b));
        }
        else if a == 'a' && b == 'z' {
            assert(t[60].0 == (a, b));
        }
        else if a == 'k' && b == 'k' {
            assert(t[61].0 == (a, b));
        }
        else if a == 'u' && b == 'z' {
            assert(t[62].0 == (a, b));
        }
        else if a == 't' && b == 'l' {
            assert(t[63].0 == (a, b));
        }
        else if a == 'n' && b == 'e' {
            assert(t[64].0 == (a, b));
        }
        else if a == 's' && b == 'i' {
            assert(t[65].0 == (a, b));
        }
        else if a == 'k' && b == 'm' {
            assert(t[66].0 == (a, b));
        }
        else if a == 'l' && b == 'o' {
            assert(t[67].0 == (a, b));
        }
        else if a == 'm' && b == 'y' {
            assert(t[68].0 == (a, b));
        }
        else if a == 'm' && b == 'n' {
            assert(t[69].0 == (a, b));
        }
    }
}

/// Name of the language for an ISO 639-1 code, matched case-insensitively.
pub open spec fn language_for_code(code: Seq<char>) -> Seq<char> {
    language_name(unicode_lowercase(code))
}

/// Name of the output language for an optional code; no code means English.
pub open spec fn output_language(language: Option<Seq<char>>) -> Seq<char> {
    match language {
        Some(code) => language_for_code(code),
        None => DEFAULT_LANGUAGE@,
    }
}

/// Convert an ISO 639-1 language code to the full language name.
/// The code is matched case-insensitively; unknown codes give English.
pub fn get_language_name(code: &str) -> (r: &'static str)
    ensures
        r@ == language_for_code(code@),
{
    let lower = to_lowercase(code);
    language_name_for(lower.as_str())
}

/// The base instructions naming `lang` as the output language.
pub open spec fn base_prompt_for(lang: Seq<char>) -> Seq<char> {
    BASE_PROMPT_HEAD@ + lang + BASE_PROMPT_TAIL@
}

/// The view of an optional string slice.
pub open spec fn opt_view(o: Option<&str>) -> Option<Seq<char>> {
    match o {
        Some(s) => Some(s@),
        None => None,
    }
}

/// The view of an optional owned string.
pub open spec fn opt_string_view(o: Option<String>) -> Option<Seq<char>> {
    match o {
        Some(s) => Some(s@),
        None => None,
    }
}

/// Build the base prompt with the specified language.
pub fn build_base_prompt(language: Option<&str>) -> (r: String)
    ensures
        r@ == base_prompt_for(output_language(opt_view(language))),
{
    let lang_name = match language {
        Some(code) => get_language_name(code),
        None => DEFAULT_LANGUAGE,
    };
    let mut prompt = BASE_PROMPT_HEAD.to_owned();
    push_str(&mut prompt, lang_name);
    push_str(&mut prompt, BASE_PROMPT_TAIL);
    prompt
}

/// Transformation styles applied on top of the base clean-up.
#[derive(Debug, Clone, Copy, PartialEq, Eq, Structural)]
pub enum EnhancementPreset {
    Default,
    Prompts,
    Email,
    Commit,
    Notes,
    Technical,
    Chat,
    Tweet,
}

/// The transformation layer of a preset (empty for the default preset).
pub open spec fn preset_transform(p: EnhancementPreset) -> Seq<char> {
    match p {
        EnhancementPreset::Default => Seq::empty(),
        EnhancementPreset::Prompts => PROMPTS_TRANSFORM@,
        EnhancementPreset::Email => EMAIL_TRANSFORM@,
        EnhancementPreset::Commit => COMMIT_TRANSFORM@,
        EnhancementPreset::Notes => NOTES_TRANSFORM@,
        EnhancementPreset::Technical => TECHNICAL_TRANSFORM@,
        EnhancementPreset::Chat => CHAT_TRANSFORM@,
        EnhancementPreset::Tweet => TWEET_TRANSFORM@,
    }
}

/// The transformation layer of a preset.
pub fn transform_for(p: EnhancementPreset) -> (r: &'static str)
    ensures
        r@ == preset_transform(p),
{
    match p {
        EnhancementPreset::Default => {
            let r = "";
            proof {
                reveal_strlit("");
            }
            assert(r@ =~= Seq::<char>::empty());
            r
        },
        EnhancementPreset::Prompts => PROMPTS_TRANSFORM,
        EnhancementPreset::Email => EMAIL_TRANSFORM,
        EnhancementPreset::Commit => COMMIT_TRANSFORM,
        EnhancementPreset::Notes => NOTES_TRANSFORM,
        EnhancementPreset::Technical => TECHNICAL_TRANSFORM,
        EnhancementPreset::Chat => CHAT_TRANSFORM,
        EnhancementPreset::Tweet => TWEET_TRANSFORM,
    }
}

/// User options for AI formatting.
#[derive(Debug, Clone)]
pub struct EnhancementOptions {
    pub preset: EnhancementPreset,
    pub custom_instructions: Option<String>,
    pub custom_vocabulary: Vec<String>,
}

impl Default for EnhancementOptions {
    fn default() -> (r: Self)
        ensures
            r.preset == EnhancementPreset::Default,
            r.custom_instructions.is_none(),
            r.custom_vocabulary@.len() == 0,
    {
        EnhancementOptions {
            preset: EnhancementPreset::Default,
            custom_instructions: None,
            custom_vocabulary: Vec::new(),
        }
    }
}

/// The views of a list of strings.
pub open spec fn views(v: Seq<String>) -> Seq<Seq<char>> {
    v.map_values(|s: String| s@)
}

/// Appends the user's instructions when they are not blank.
pub open spec fn with_instructions(prompt: Seq<char>, instructions: Option<Seq<char>>) -> Seq<
    char,
> {
    match instructions {
        Some(i) => if trim(i).len() == 0 {
            prompt
        } else {
            prompt + INSTRUCTIONS_LABEL@ + trim(i)
        },
        None => prompt,
    }
}

/// The complete formatting prompt.
pub open spec fn enhancement_prompt(
    text: Seq<char>,
    context: Option<Seq<char>>,
    preset: EnhancementPreset,
    vocabulary: Seq<Seq<char>>,
    instructions: Option<Seq<char>>,
    lang: Seq<char>,
) -> Seq<char> {
    let core = if preset == EnhancementPreset::Default {
        base_prompt_for(lang) + TRANSCRIPT_HEADER@ + trim(text)
    } else {
        base_prompt_for(lang) + BLOCK_BREAK@ + preset_transform(preset) + TRANSCRIPT_HEADER@ + trim(
            text,
        )
    };
    let with_context = match context {
        Some(c) => core + CONTEXT_LABEL@ + c,
        None => core,
    };
    let with_vocabulary = if vocabulary.len() == 0 {
        with_context
    } else {
        with_context + VOCABULARY_LABEL@ + join(vocabulary, VOCABULARY_SEPARATOR@)
    };
    with_instructions(with_vocabulary, instructions)
}

/// Appends the user's instructions to `prompt` when they are not blank.
fn append_instructions(prompt: &mut String, instructions: Option<&str>)
    ensures
        final(prompt)@ == with_instructions(old(prompt)@, opt_view(instructions)),
{
    if let Some(i) = instructions {
        let trimmed = trim_str(i);
        if !trimmed.as_str().is_empty() {
            push_str(prompt, INSTRUCTIONS_LABEL);
            push_str(prompt, trimmed.as_str());
        }
    }
}

/// Build the prompt that asks the AI to clean up a transcript.
///
/// Every preset starts with the base clean-up instructions in the requested
/// language; non-default presets add their transformation layer. The trimmed
/// transcript follows, then the context, the custom vocabulary and the
/// non-blank custom instructions, in that order.
pub fn build_enhancement_prompt(
    text: &str,
    context: Option<&str>,
    options: &EnhancementOptions,
    language: Option<&str>,
) -> (r: String)
    ensures
        r@ == enhancement_prompt(
            text@,
            opt_view(context),
            options.preset,
            views(options.custom_vocabulary@),
            opt_string_view(options.custom_instructions),
            output_language(opt_view(language)),
        ),
{
    let mut prompt = build_base_prompt(language);
    if options.preset != EnhancementPreset::Default {
        push_str(&mut prompt, BLOCK_BREAK);
        push_str(&mut prompt, transform_for(options.preset));
    }
    push_str(&mut prompt, TRANSCRIPT_HEADER);
    let trimmed = trim_str(text);
    push_str(&mut prompt, trimmed.as_str());

    if let Some(ctx) = context {
        push_str(&mut prompt, CONTEXT_LABEL);
        push_str(&mut prompt, ctx);
    }

    if options.custom_vocabulary.len() != 0 {
        push_str(&mut prompt, VOCABULARY_LABEL);
        let terms = join_strings(&options.custom_vocabulary, VOCABULARY_SEPARATOR);
        push_str(&mut prompt, terms.as_str());
    }

    let instructions = match &options.custom_instructions {
        Some(i) => Some(i.as_str()),
        None => None,
    };
    append_instructions(&mut prompt, instructions);
    prompt
}

/// Style options for rephrasing already-written text.
#[derive(Debug, Clone, Copy, PartialEq, Eq, Structural)]
pub enum RephraseStyle {
    /// Formal, polished professional writing
    Professional,
    /// Shorter, more direct
    Concise,
    /// Warm, approachable tone
    Friendly,
    /// Just fix grammar/spelling, minimal changes
    FixGrammar,
    /// Expand and add detail
    Elaborate,
}

impl Default for RephraseStyle {
    fn default() -> (r: Self)
        ensures
            r == RephraseStyle::Professional,
    {
        RephraseStyle::Professional
    }
}

/// The name of a rephrase style.
pub open spec fn style_name(s: RephraseStyle) -> Seq<char> {
    match s {
        RephraseStyle::Professional => "Professional"@,
        RephraseStyle::Concise => "Concise"@,
        RephraseStyle::Friendly => "Friendly"@,
        RephraseStyle::FixGrammar => "FixGrammar"@,
        RephraseStyle::Elaborate => "Elaborate"@,
    }
}

/// The instructions of a rephrase style.
pub open spec fn style_instruction(s: RephraseStyle) -> Seq<char> {
    match s {
        RephraseStyle::Professional => PROFESSIONAL_STYLE@,
        RephraseStyle::Concise => CONCISE_STYLE@,
        RephraseStyle::Friendly => FRIENDLY_STYLE@,
        RephraseStyle::FixGrammar => FIX_GRAMMAR_STYLE@,
        RephraseStyle::Elaborate => ELABORATE_STYLE@,
    }
}

/// The style a name denotes, if any.
pub open spec fn style_named(name: Seq<char>) -> Option<RephraseStyle> {
    if name == "Professional"@ {
        Some(RephraseStyle::Professional)
    } else if name == "Concise"@ {
        Some(RephraseStyle::Concise)
    } else if name == "Friendly"@ {
        Some(RephraseStyle::Friendly)
    } else if name == "FixGrammar"@ {
        Some(RephraseStyle::FixGrammar)
    } else if name == "Elaborate"@ {
        Some(RephraseStyle::Elaborate)
    } else {
        None
    }
}

/// Message of the error for an unknown style name.
pub const UNKNOWN_STYLE_PREFIX: &'static str = "Unknown rephrase style: ";

impl RephraseStyle {
    /// The style's name, as it is displayed and parsed.
    pub fn to_string(&self) -> (r: String)
        ensures
            r@ == style_name(*self),
    {
        let name = match self {
            RephraseStyle::Professional => "Professional",
            RephraseStyle::Concise => "Concise",
            RephraseStyle::Friendly => "Friendly",
            RephraseStyle::FixGrammar => "FixGrammar",
            RephraseStyle::Elaborate => "Elaborate",
        };
        name.to_owned()
    }

    /// Parse a style from its exact name.
    pub fn from_str(s: &str) -> (r: Result<RephraseStyle, String>)
        ensures
            match r {
                Ok(style) => style_named(s@) == Some(style),
                Err(msg) => style_named(s@).is_none() && msg@ == UNKNOWN_STYLE_PREFIX@ + s@,
            },
    {
        if str_eq(s, "Professional") {
            Ok(RephraseStyle::Professional)
        } else if str_eq(s, "Concise") {
            Ok(RephraseStyle::Concise)
        } else if str_eq(s, "Friendly") {
            Ok(RephraseStyle::Friendly)
        } else if str_eq(s, "FixGrammar") {
            Ok(RephraseStyle::FixGrammar)
        } else if str_eq(s, "Elaborate") {
            Ok(RephraseStyle::Elaborate)
        } else {
            let mut msg = UNKNOWN_STYLE_PREFIX.to_owned();
            push_str(&mut msg, s);
            Err(msg)
        }
    }
}

/// The instructions of a rephrase style.
pub fn style_instruction_for(s: &RephraseStyle) -> (r: &'static str)
    ensures
        r@ == style_instruction(*s),
{
    match s {
        RephraseStyle::Professional => PROFESSIONAL_STYLE,
        RephraseStyle::Concise => CONCISE_STYLE,
        RephraseStyle::Friendly => FRIENDLY_STYLE,
        RephraseStyle::FixGrammar => FIX_GRAMMAR_STYLE,
        RephraseStyle::Elaborate => ELABORATE_STYLE,
    }
}

/// The complete rephrase prompt.
pub open spec fn rephrase_prompt(
    text: Seq<char>,
    style: RephraseStyle,
    instructions: Option<Seq<char>>,
    lang: Seq<char>,
) -> Seq<char> {
    with_instructions(
        REPHRASE_HEAD@ + lang + REPHRASE_MIDDLE@ + style_instruction(style) + REPHRASE_TEXT_HEADER@
            + trim(text),
        instructions,
    )
}

/// Build a prompt for rephrasing already-written text (not a voice transcript).
///
/// Unlike `build_enhancement_prompt`, the prompt holds no voice-specific
/// instructions; it names the output language, the style's instructions and
/// the trimmed text, followed by the non-blank custom instructions.
pub fn build_rephrase_prompt(
    text: &str,
    style: &RephraseStyle,
    custom_instructions: Option<&str>,
    language: Option<&str>,
) -> (r: String)
    ensures
        r@ == rephrase_prompt(
            text@,
            *style,
            opt_view(custom_instructions),
            output_language(opt_view(language)),
        ),
{
    let lang_name = match language {
        Some(code) => get_language_name(code),
        None => DEFAULT_LANGUAGE,
    };
    let mut prompt = REPHRASE_HEAD.to_owned();
    push_str(&mut prompt, lang_name);
    push_str(&mut prompt, REPHRASE_MIDDLE);
    push_str(&mut prompt, style_instruction_for(style));
    push_str(&mut prompt, REPHRASE_TEXT_HEADER);
    let trimmed = trim_str(text);
    push_str(&mut prompt, trimmed.as_str());
    append_instructions(&mut prompt, custom_instructions);
    prompt
}

} // verus!

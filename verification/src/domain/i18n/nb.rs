//! Norwegian Bokmål strings, the only locale shipped today.
use vstd::prelude::*;
use vstd::string::*;

use crate::text::number;
use crate::text::number::push_decimal;

verus! {

// ----- Shell / chrome -------------------------------------------------
/// BCP-47 language tag emitted in the `lang` attribute of the page.
pub const LANG: &'static str = "nb";
/// Organisation name shown in the top bar.
pub const BRAND: &'static str = "Oslofjord IT";
/// Browser tab title.
pub const APP_TITLE: &'static str = "Mediagenerator";
/// Meta description for the application shell.
pub const APP_DESCRIPTION: &'static str = "Lag bilder, lyd og video med AI.";

/// User menu: link to the signed-in user's own history.
pub const NAV_MY_HISTORY: &'static str = "Min historikk";
/// User menu: sign out.
pub const NAV_LOGOUT: &'static str = "Logg ut";
/// Accessible label for the user menu trigger.
pub const NAV_USER_MENU_LABEL: &'static str = "Åpne brukermeny";

// ----- Hero -----------------------------------------------------------
/// Small uppercase eyebrow above the headline.
pub const HERO_EYEBROW: &'static str = "Generer med AI";
/// Headline, first half (rendered in plain white).
pub const HERO_TITLE_LEAD: &'static str = "Media";
/// Headline, second half (rendered with the purple to blue gradient).
pub const HERO_TITLE_ACCENT: &'static str = "generator";
/// Ingress, first line.
pub const HERO_SUBTITLE_1: &'static str = "Lag bilder, lyd og video med AI.";
/// Ingress, second line.
pub const HERO_SUBTITLE_2: &'static str = "Beskriv hva du ønsker og velg medietype.";

// ----- Generator card -------------------------------------------------
/// Placeholder text in the prompt textarea.
pub const PROMPT_PLACEHOLDER: &'static str = "Beskriv hva du ønsker å lage…";
/// Accessible label for the prompt textarea.
pub const PROMPT_LABEL: &'static str = "Beskrivelse av det du vil generere";
/// Label for the media type radio group.
pub const MEDIA_TYPE_LEGEND: &'static str = "Velg medietype";
/// Media type: image.
pub const MEDIA_IMAGE: &'static str = "Bilde";
/// Media type: image, subtitle.
pub const MEDIA_IMAGE_SUB: &'static str = "Bilder og illustrasjoner";
/// Media type: audio.
pub const MEDIA_AUDIO: &'static str = "Lyd";
/// Media type: audio, subtitle.
pub const MEDIA_AUDIO_SUB: &'static str = "Tale, musikk og lydeffekter";
/// Media type: video.
pub const MEDIA_VIDEO: &'static str = "Video";
/// Media type: video, subtitle.
pub const MEDIA_VIDEO_SUB: &'static str = "Korte videoklipp";
/// Primary submit button.
pub const GENERATE: &'static str = "Generer";
/// Primary submit button while a job is running.
pub const GENERATING: &'static str = "Genererer…";

/// Leading label of the suggestion chip row.
pub const SUGGESTIONS_LABEL: &'static str = "Forslag:";

// ----- Result / gallery ----------------------------------------------
/// Heading of the generated-content section.
pub const GENERATED_HEADING: &'static str = "Generert";
/// Link from the generated section to the archive.
pub const GENERATED_LINK: &'static str = "Se ferdig generert innhold";
/// Download the produced asset.
pub const DOWNLOAD: &'static str = "Last ned";
/// Copy a time-limited link to the produced asset.
pub const COPY_LINK: &'static str = "Kopier lenke";
/// Re-run the same prompt.
pub const REGENERATE: &'static str = "Generer på nytt";
/// Toast shown when a background job finishes.
pub const TOAST_DONE: &'static str = "Genereringen er ferdig";

// ----- Footer ---------------------------------------------------------
/// Muted footer line.
pub const FOOTER: &'static str = "Vibecoding for the win";

// ----- Errors ---------------------------------------------------------
/// Generic fallback for unexpected server errors.
pub const ERR_INTERNAL: &'static str = "Noe gikk galt hos oss. Prøv igjen om litt – feilen er logget.";
/// Shown when the session is missing or expired.
pub const ERR_UNAUTHENTICATED: &'static str = "Du må logge inn for å bruke Mediagenerator.";
/// Shown when the user lacks the required app role.
pub const ERR_FORBIDDEN: &'static str =
    "Du har ikke tilgang til Mediagenerator. Kontakt Oslofjord IT for å få tilgang.";
/// Shown when an entity does not exist or belongs to someone else.
pub const ERR_NOT_FOUND: &'static str = "Fant ikke det du lette etter.";
/// Shown when the per-user rate limit is exceeded.
pub const ERR_RATE_LIMITED: &'static str =
    "Du har generert mye på kort tid. Vent litt før du prøver igjen.";
/// Shown when the provider's content filter rejected the prompt.
pub const ERR_CONTENT_FILTER: &'static str =
    "Beskrivelsen ble avvist av innholdsfilteret. Prøv å formulere den annerledes.";
/// Shown when an upstream Azure service failed or timed out.
pub const ERR_UPSTREAM: &'static str =
    "AI-tjenesten svarer ikke akkurat nå. Prøv igjen om noen minutter.";
/// Shown when the CSRF token is missing or does not match.
pub const ERR_CSRF: &'static str = "Sikkerhetssjekken feilet. Last siden på nytt og prøv igjen.";
/// Shown when the prompt is empty.
pub const ERR_PROMPT_EMPTY: &'static str = "Du må beskrive hva du vil lage.";
/// Shown when the prompt contains disallowed control characters.
pub const ERR_PROMPT_CONTROL_CHARS: &'static str = "Beskrivelsen inneholder ugyldige tegn.";
/// Shown when submitted input is not acceptable and nothing more specific is
/// known.
pub const ERR_VALIDATION: &'static str = "Noe i forespørselen er ugyldig. Se over den og prøv igjen.";
/// Shown when a media type is not one of the three on offer.
pub const ERR_UNKNOWN_MEDIA_TYPE: &'static str = "Ukjent medietype.";
/// Shown when a sign-in did not complete, whatever the reason.
pub const ERR_LOGIN_FAILED: &'static str = "Innloggingen mislyktes. Prøv å logge inn på nytt.";
/// Shown when a generation did not finish in time.
pub const ERR_GENERATION_TIMEOUT: &'static str = "Genereringen tok for lang tid. Prøv igjen.";
/// Display name of somebody whose token carried no name at all.
pub const UNKNOWN_USER: &'static str = "Ukjent bruker";

/// The message shown when a prompt has more than `max` characters.
pub open spec fn prompt_too_long(max: nat) -> Seq<char> {
    "Beskrivelsen kan være maks "@ + number::decimal(max) + " tegn."@
}

/// Returns the message shown when the prompt exceeds `max` characters.
pub fn err_prompt_too_long(max: usize) -> (r: String)
    ensures
        r@ == prompt_too_long(max as nat),
{
    let mut out = String::new();
    out.append("Beskrivelsen kan være maks ");
    push_decimal(&mut out, max as u64);
    out.append(" tegn.");
    assert(out@ =~= prompt_too_long(max as nat));
    out
}

/// A message about a prompt that is too long names the limit that it is too long for, and
/// messages about different limits differ.
pub proof fn law_the_limit_is_named(max: nat, other: nat)
    ensures
        prompt_too_long(max) == "Beskrivelsen kan være maks "@ + number::decimal(max)
            + " tegn."@,
        prompt_too_long(max) == prompt_too_long(other) ==> max == other,
{
    let a = prompt_too_long(max);
    let b = prompt_too_long(other);
    let n = "Beskrivelsen kan være maks "@.len() as int;
    let m = " tegn."@.len() as int;
    number::law_decimal_reads_back(max);
    number::law_decimal_reads_back(other);
    if a == b {
        assert(a.len() == n + number::decimal(max).len() + m);
        assert(b.len() == n + number::decimal(other).len() + m);
        assert(a.subrange(n, a.len() - m) =~= number::decimal(max));
        assert(b.subrange(n, b.len() - m) =~= number::decimal(other));
    }
}

} // verus!

use vstd::prelude::*;
use vstd::string::StringExecFns;
use crate::anon::{signed_as, Anon, ChallengeSignature};
use crate::crypto::{base64_decoded, valid_secret_key};
use crate::error::GrokError;
use crate::grok_parser::{anim_index, anim_name, challenge_of, d_values_from, token_delimiter, Parser};
use crate::text::between_spec;
use crate::utils::Utils;

verus! {

/// Where a new-conversation handshake stands.
#[derive(Debug, Clone, Copy, PartialEq, Eq, Structural)]
pub enum HandshakeStep {
    /// The public key is to be submitted (step 0).
    AwaitingKey,
    /// The anonymous user is known; the challenge is to be fetched (step 1).
    AwaitingChallenge,
    /// The challenge is handled; the verification token is to be fetched (step 2).
    AwaitingVerification,
    /// The material for request signatures is there.
    Done,
}

/// The handshake's progress; each field is written by exactly one step.
#[derive(Debug)]
pub struct Handshake {
    pub step: HandshakeStep,
    pub anon_user: Option<String>,
    pub challenge: Option<ChallengeSignature>,
    pub verification_token: Option<String>,
    pub anim: Option<String>,
    pub svg_data: Option<String>,
    pub numbers: Option<Vec<usize>>,
}

/// The delimiter before the anonymous user id in the step-zero response.
pub open spec fn anon_user_delimiter() -> Seq<char> {
    "{\"anonUserId\":\""@
}

/// The name of the verification token in the step-two response.
pub open spec fn verification_name() -> Seq<char> {
    "grok-site-verification"@
}

/// Whether a step-two response carries what the step needs: a verification
/// token that decodes to more than five bytes, and the SVG path of the
/// animation that it selects.
pub open spec fn verification_found(response: Seq<char>) -> bool {
    between_spec(response, token_delimiter(verification_name()), "\""@) matches Some(t) && (base64_decoded(t)
        matches Some(d) && d.len() > 5 && (anim_index(anim_name(d)) matches Some(i) && i < d_values_from(
        response,
        0,
    ).len()))
}

impl Handshake {
    /// Whether the fields written so far match the step reached.
    pub open spec fn wf(&self) -> bool {
        &&& (self.step != HandshakeStep::AwaitingKey <==> self.anon_user is Some)
        &&& (self.step == HandshakeStep::Done <==> self.verification_token is Some)
        &&& (self.step == HandshakeStep::Done <==> self.anim is Some)
        &&& (self.step == HandshakeStep::Done <==> self.svg_data is Some)
        &&& (self.step == HandshakeStep::Done <==> self.numbers is Some)
        &&& (self.challenge is Some ==> self.step == HandshakeStep::AwaitingVerification
            || self.step == HandshakeStep::Done)
    }

    /// A new conversation's handshake, at step 0.
    pub fn new() -> (r: Self)
        ensures
            r.wf(),
            r.step == HandshakeStep::AwaitingKey,
    {
        Handshake {
            step: HandshakeStep::AwaitingKey,
            anon_user: None,
            challenge: None,
            verification_token: None,
            anim: None,
            svg_data: None,
            numbers: None,
        }
    }

    /// A resumed conversation's handshake: the anonymous user comes from the
    /// continuation data, and steps 1 and 2 are run again.
    pub fn resume(anon_user: String) -> (r: Self)
        ensures
            r.wf(),
            r.step == HandshakeStep::AwaitingChallenge,
            r.anon_user == Some(anon_user),
            r.challenge is None,
    {
        Handshake {
            step: HandshakeStep::AwaitingChallenge,
            anon_user: Some(anon_user),
            challenge: None,
            verification_token: None,
            anim: None,
            svg_data: None,
            numbers: None,
        }
    }

    fn out_of_order() -> (e: GrokError)
        ensures
            e is Other,
    {
        GrokError::Other(String::from_str("handshake step out of order"))
    }

    /// Step 0: takes the anonymous user id out of the response to the public key.
    pub fn record_anon_user(&mut self, response: &str) -> (r: Result<(), GrokError>)
        requires
            old(self).wf(),
        ensures
            final(self).wf(),
            old(self).step != HandshakeStep::AwaitingKey ==> (r matches Err(e) && e is Other) && *final(self) == *old(self),
            old(self).step == HandshakeStep::AwaitingKey ==> match r {
                Ok(_) => between_spec(response@, anon_user_delimiter(), "\""@) matches Some(id)
                    && final(self).anon_user matches Some(a) && a@ == id
                    && final(self).step == HandshakeStep::AwaitingChallenge,
                Err(e) => e is ParseError && between_spec(response@, anon_user_delimiter(), "\""@) is None
                    && *final(self) == *old(self),
            },
    {
        if self.step != HandshakeStep::AwaitingKey {
            return Err(Self::out_of_order());
        }
        let id = match Utils::between(response, "{\"anonUserId\":\"", "\"") {
            Ok(id) => id,
            Err(e) => return Err(e),
        };
        self.anon_user = Some(id);
        self.step = HandshakeStep::AwaitingChallenge;
        Ok(())
    }

    /// Step 1: where the response carries a challenge, signs it with the
    /// session's secret key bytes; the step is done either way.
    pub fn record_challenge(&mut self, response: &[u8], private_key: &[u8]) -> (r: Result<(), GrokError>)
        requires
            old(self).wf(),
        ensures
            final(self).wf(),
            old(self).step != HandshakeStep::AwaitingChallenge ==> (r matches Err(e) && e is Other) && *final(self) == *old(self),
            old(self).step == HandshakeStep::AwaitingChallenge ==> match r {
                Ok(_) => final(self).step == HandshakeStep::AwaitingVerification
                    && final(self).anon_user == old(self).anon_user
                    && match challenge_of(response@) {
                        Some(c) => final(self).challenge matches Some(s) && signed_as(s, c, private_key@),
                        None => final(self).challenge is None,
                    },
                Err(e) => challenge_of(response@) is Some && !valid_secret_key(private_key@) && e is CryptoError
                    && *final(self) == *old(self),
            },
    {
        if self.step != HandshakeStep::AwaitingChallenge {
            return Err(Self::out_of_order());
        }
        match Parser::extract_challenge(response) {
            Some(c) => {
                let signed = match Anon::sign_challenge_with_key(c.as_slice(), private_key) {
                    Ok(s) => s,
                    Err(e) => return Err(e),
                };
                self.challenge = Some(signed);
            },
            None => {},
        }
        self.step = HandshakeStep::AwaitingVerification;
        Ok(())
    }

    /// Step 2: takes the verification token, its animation and the animation's
    /// SVG path out of the response; `numbers` are the offsets that the
    /// signature script gives.
    pub fn record_verification(&mut self, response: &str, numbers: Vec<usize>) -> (r: Result<(), GrokError>)
        requires
            old(self).wf(),
        ensures
            final(self).wf(),
            old(self).step != HandshakeStep::AwaitingVerification ==> (r matches Err(e) && e is Other) && *final(self) == *old(self),
            old(self).step == HandshakeStep::AwaitingVerification ==> match r {
                Ok(_) => final(self).step == HandshakeStep::Done
                    && (final(self).verification_token matches Some(t) && between_spec(
                        response@,
                        token_delimiter(verification_name()),
                        "\""@,
                    ) == Some(t@))
                    && (final(self).anim matches Some(a) && anim_index(a@) matches Some(i)
                        && final(self).svg_data matches Some(svg) && svg@ == d_values_from(response@, 0)[i as int])
                    && final(self).numbers == Some(numbers),
                Err(e) => e is ParseError && *final(self) == *old(self) && !verification_found(response@),
            },
    {
        if self.step != HandshakeStep::AwaitingVerification {
            return Err(Self::out_of_order());
        }
        let (token, anim) = match Parser::get_anim(response, "grok-site-verification") {
            Ok(found) => found,
            Err(e) => return Err(e),
        };
        let svg = match Parser::select_svg(response, anim.as_str()) {
            Ok(svg) => svg,
            Err(e) => return Err(e),
        };
        self.verification_token = Some(token);
        self.anim = Some(anim);
        self.svg_data = Some(svg);
        self.numbers = Some(numbers);
        self.step = HandshakeStep::Done;
        Ok(())
    }
}

/// The path that a conversation request is signed for: a new conversation's,
/// or the responses of the conversation being resumed; an error where a resumed
/// conversation has no id.
pub fn conversation_path(is_new: bool, conversation_id: &Option<String>) -> (r: Result<String, GrokError>)
    ensures
        is_new ==> (r matches Ok(p) && p@ == "/rest/app-chat/conversations/new"@),
        !is_new ==> match conversation_id {
            Some(id) => r matches Ok(p) && p@ == "/rest/app-chat/conversations/"@ + id@ + "/responses"@,
            None => r matches Err(GrokError::MissingField(m)) && m@ == "conversationId"@,
        },
{
    if is_new {
        return Ok(String::from_str("/rest/app-chat/conversations/new"));
    }
    match conversation_id {
        Some(id) => {
            let mut p = String::from_str("/rest/app-chat/conversations/");
            p.append(id.as_str());
            p.append("/responses");
            Ok(p)
        },
        None => Err(GrokError::MissingField(String::from_str("conversationId"))),
    }
}

} // verus!

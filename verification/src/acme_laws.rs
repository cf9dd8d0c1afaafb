//! What holds of renewal and of the command that obtains certificates.

use vstd::prelude::*;

use crate::acme::{LetsEncryptView, MetadataView, DEFAULT_TEMPLATE, RENEWAL_DAYS};
use crate::clock::{clock_reading, UtcTime, SECS_PER_DAY};
use crate::dates::{completed, has_assumed_expiry, no_dates, ASSUMED_DAYS};
use crate::paths;
use crate::text;
use crate::text_laws;

verus! {

/// A certificate that is due for renewal stays due.
pub proof fn law_due_stays_due(metadata: MetadataView, now: UtcTime, later: UtcTime)
    requires
        metadata.renewal_due(now),
        !now.after(later),
    ensures
        metadata.renewal_due(later),
{
}

/// A certificate is due exactly in the thirty days before it expires and ever
/// after, counted to the nanosecond: the clock has passed the instant that lies
/// 2592000 seconds before the expiry.
pub proof fn law_due_in_the_last_thirty_days(metadata: MetadataView, now: UtcTime)
    requires
        metadata.wf(),
        metadata.has_renewal_threshold(),
        now.wf(),
    ensures
        ({
            let begins = (metadata.expires_at.secs - 2_592_000) * 1_000_000_000
                + metadata.expires_at.nanos;
            &&& now.nanos < 1_000_000_000 ==> (metadata.renewal_due(now) <==> now.secs
                * 1_000_000_000 + now.nanos > begins)
            &&& now.nanos >= 1_000_000_000 ==> (metadata.renewal_due(now) <==> now.secs
                * 1_000_000_000 + 1_000_000_000 > begins)
        }),
{
}

/// Where a certificate is due for renewal, one that expires no later is due as
/// well. Left out is an expiry in the leap second before the later one which,
/// counted as the second after it as it is when going back, lies behind that
/// later one.
pub proof fn law_earlier_expiry_is_due(earlier: MetadataView, later: MetadataView, now: UtcTime)
    requires
        earlier.wf(),
        earlier.has_renewal_threshold(),
        later.wf(),
        later.has_renewal_threshold(),
        !earlier.expires_at.after(later.expires_at),
        !(earlier.expires_at.in_leap_second() && earlier.expires_at.secs + 1
            == later.expires_at.secs && earlier.expires_at.plain_nanos()
            > later.expires_at.nanos),
        later.renewal_due(now),
    ensures
        earlier.renewal_due(now),
{
}

/// Whether a certificate is due rests on its expiry and the clock alone.
pub proof fn law_due_by_expiry_alone(one: MetadataView, other: MetadataView, now: UtcTime)
    requires
        one.expires_at == other.expires_at,
    ensures
        one.renewal_due(now) == other.renewal_due(now),
{
}

/// A certificate that has expired is due for renewal.
pub proof fn law_expired_is_due(metadata: MetadataView, now: UtcTime)
    requires
        metadata.wf(),
        metadata.has_renewal_threshold(),
        now.wf(),
        !metadata.expires_at.after(now),
    ensures
        metadata.renewal_due(now),
{
}

/// A certificate that is not due has not expired at any time in the
/// twenty-nine days that follow, so one of the daily checks comes in between.
pub proof fn law_next_checks_are_in_time(metadata: MetadataView, now: UtcTime, later: UtcTime)
    requires
        metadata.wf(),
        metadata.has_renewal_threshold(),
        now.wf(),
        !metadata.renewal_due(now),
        later.secs <= now.secs + (RENEWAL_DAYS - 1) * SECS_PER_DAY,
    ensures
        metadata.expires_at.after(later),
{
}

/// A certificate whose dates could not be found is not due in the sixty days
/// after it was obtained.
pub proof fn law_assumed_dates_are_not_due(
    metadata: MetadataView,
    issue_now: UtcTime,
    expiry_now: UtcTime,
    later: UtcTime,
)
    requires
        clock_reading(expiry_now),
        has_assumed_expiry(expiry_now),
        metadata.expires_at == completed(no_dates(), issue_now, expiry_now).expires_at,
        later.secs < expiry_now.secs + (ASSUMED_DAYS - RENEWAL_DAYS) * SECS_PER_DAY,
    ensures
        !metadata.renewal_due(later),
{
}

/// What stands for `{cert_dir}` in the end.
pub open spec fn final_cert_dir(config: LetsEncryptView) -> Seq<char> {
    text::replaced(config.cert_dir, "{staging_flag}"@, config.staging_flag())
}

/// What stands for `{email}` in the end.
pub open spec fn final_email(config: LetsEncryptView) -> Seq<char> {
    text::replaced(
        text::replaced(config.email, "{cert_dir}"@, config.cert_dir),
        "{staging_flag}"@,
        config.staging_flag(),
    )
}

/// What stands for `{domain}` in the end.
pub open spec fn final_domain(config: LetsEncryptView) -> Seq<char> {
    text::replaced(
        text::replaced(
            text::replaced(config.domain, "{email}"@, config.email),
            "{cert_dir}"@,
            config.cert_dir,
        ),
        "{staging_flag}"@,
        config.staging_flag(),
    )
}

/// The words of the default command around the four that are filled in.
pub open spec fn default_words(
    cert_dir: Seq<char>,
    domain: Seq<char>,
    email: Seq<char>,
    staging_flag: Seq<char>,
) -> Seq<Seq<char>> {
    seq![
        "certbot certonly --webroot -w"@,
        cert_dir,
        "-d"@,
        domain,
        "--email"@,
        email,
        "--agree-tos --non-interactive"@,
        staging_flag,
    ]
}

/// A text without braces has no placeholder.
proof fn lemma_no_brace(s: Seq<char>, pat: Seq<char>, with: Seq<char>)
    requires
        pat.len() > 0,
        pat[0] == '{',
        !s.contains('{'),
    ensures
        text::replaced(s, pat, with) == s,
{
    assert forall|i: int| 0 <= i <= s.len() implies !pat.is_prefix_of(#[trigger] s.skip(i)) by {
        if pat.is_prefix_of(s.skip(i)) {
            assert(s.skip(i)[0] == s.skip(i).subrange(0, pat.len() as int)[0]);
            assert(s[i] == '{');
        }
    }
    text::law_replaced_without_occurrence(s, pat, with);
}

/// A placeholder with another second character stays as it is.
proof fn lemma_other_placeholder(s: Seq<char>, pat: Seq<char>, with: Seq<char>)
    requires
        pat.len() > 1,
        pat[0] == '{',
        s.len() > 1,
        s[1] != pat[1],
        !s.skip(1).contains('{'),
    ensures
        text::replaced(s, pat, with) == s,
{
    if pat.is_prefix_of(s) {
        assert(s[1] == s.subrange(0, pat.len() as int)[1]);
    }
    lemma_no_brace(s.skip(1), pat, with);
    assert(seq![s[0]] + s.skip(1) == s);
}

/// The default template, by its words.
proof fn lemma_default_template()
    ensures
        DEFAULT_TEMPLATE@ == text::spaced(
            default_words("{cert_dir}"@, "{domain}"@, "{email}"@, "{staging_flag}"@),
        ),
{
    let words = default_words("{cert_dir}"@, "{domain}"@, "{email}"@, "{staging_flag}"@);
    reveal_strlit(
        "certbot certonly --webroot -w {cert_dir} -d {domain} --email {email} --agree-tos --non-interactive {staging_flag}",
    );
    reveal_strlit("certbot certonly --webroot -w");
    reveal_strlit("{cert_dir}");
    reveal_strlit("-d");
    reveal_strlit("{domain}");
    reveal_strlit("--email");
    reveal_strlit("{email}");
    reveal_strlit("--agree-tos --non-interactive");
    reveal_strlit("{staging_flag}");
    lemma_spaced_eight(words);
    assert(DEFAULT_TEMPLATE@ =~= words[0] + seq![' '] + words[1] + seq![' '] + words[2] + seq![' ']
        + words[3] + seq![' '] + words[4] + seq![' '] + words[5] + seq![' '] + words[6] + seq![' ']
        + words[7]);
}

/// Eight words with a space between each two.
proof fn lemma_spaced_eight(words: Seq<Seq<char>>)
    requires
        words.len() == 8,
    ensures
        text::spaced(words) == words[0] + seq![' '] + words[1] + seq![' '] + words[2] + seq![' ']
            + words[3] + seq![' '] + words[4] + seq![' '] + words[5] + seq![' '] + words[6]
            + seq![' '] + words[7],
{
    reveal_with_fuel(text::spaced, 9);
    let all = words[0] + seq![' '] + (words[1] + seq![' '] + (words[2] + seq![' '] + (words[3]
        + seq![' '] + (words[4] + seq![' '] + (words[5] + seq![' '] + (words[6] + seq![' ']
        + words[7]))))));
    assert(text::spaced(words) == all);
    assert(all =~= words[0] + seq![' '] + words[1] + seq![' '] + words[2] + seq![' '] + words[3]
        + seq![' '] + words[4] + seq![' '] + words[5] + seq![' '] + words[6] + seq![' ']
        + words[7]);
}

/// One placeholder is filled in, word by word.
proof fn lemma_fill(words: Seq<Seq<char>>, filled: Seq<Seq<char>>, pat: Seq<char>, with: Seq<char>)
    requires
        pat.len() > 0,
        !pat.contains(' '),
        words.len() == 8,
        filled.len() == 8,
        forall|i: int| 0 <= i < 8 ==> #[trigger] filled[i] == text::replaced(words[i], pat, with),
    ensures
        text::replaced(text::spaced(words), pat, with) == text::spaced(filled),
{
    text::lemma_replaced_spaced(words, pat, with);
    assert(text::replaced_each(words, pat, with) =~= filled);
}

/// The command that is run where no template is configured: certbot, by its
/// webroot in the certificate directory, for the domain and with the email, and
/// with the flag for the staging service where that is switched on. A
/// placeholder that stands in one of these and is filled in later is filled in
/// there too.
pub proof fn law_default_command(config: LetsEncryptView)
    ensures
        config.acme_command(None) == text::spaced(
            default_words(
                final_cert_dir(config),
                final_domain(config),
                final_email(config),
                config.staging_flag(),
            ),
        ),
{
    reveal_strlit("certbot certonly --webroot -w");
    reveal_strlit("{cert_dir}");
    reveal_strlit("-d");
    reveal_strlit("{domain}");
    reveal_strlit("--email");
    reveal_strlit("{email}");
    reveal_strlit("--agree-tos --non-interactive");
    reveal_strlit("{staging_flag}");
    lemma_default_template();
    let dir = "{cert_dir}"@;
    let domain = "{domain}"@;
    let email = "{email}"@;
    let flag = "{staging_flag}"@;
    let flag_value = config.staging_flag();
    let w0 = default_words(dir, domain, email, flag);
    assert forall|pat: Seq<char>, with: Seq<char>, i: int|
        pat.len() > 0 && pat[0] == '{' && (i == 0 || i == 2 || i == 4 || i
            == 6) implies #[trigger] text::replaced(w0[i], pat, with) == w0[i] by {
        lemma_no_brace(w0[i], pat, with);
    }

    let d1 = config.domain;
    let w1 = default_words(dir, d1, email, flag);
    text::lemma_replaced_pattern(domain, config.domain);
    lemma_other_placeholder(dir, domain, config.domain);
    lemma_other_placeholder(email, domain, config.domain);
    lemma_other_placeholder(flag, domain, config.domain);
    lemma_fill(w0, w1, domain, config.domain);

    let d2 = text::replaced(d1, email, config.email);
    let e2 = config.email;
    let w2 = default_words(dir, d2, e2, flag);
    text::lemma_replaced_pattern(email, config.email);
    lemma_other_placeholder(dir, email, config.email);
    lemma_other_placeholder(flag, email, config.email);
    lemma_fill(w1, w2, email, config.email);

    let d3 = text::replaced(d2, dir, config.cert_dir);
    let e3 = text::replaced(e2, dir, config.cert_dir);
    let c3 = config.cert_dir;
    let w3 = default_words(c3, d3, e3, flag);
    text::lemma_replaced_pattern(dir, config.cert_dir);
    lemma_other_placeholder(flag, dir, config.cert_dir);
    lemma_fill(w2, w3, dir, config.cert_dir);

    let w4 = default_words(
        final_cert_dir(config),
        final_domain(config),
        final_email(config),
        flag_value,
    );
    text::lemma_replaced_pattern(flag, flag_value);
    lemma_fill(w3, w4, flag, flag_value);
}

/// Where no value holds a placeholder that is filled in after it, the default
/// command holds the values as they are.
pub proof fn law_default_command_of_plain_values(config: LetsEncryptView)
    requires
        !text::occurs("{email}"@, config.domain),
        !text::occurs("{cert_dir}"@, config.domain),
        !text::occurs("{staging_flag}"@, config.domain),
        !text::occurs("{cert_dir}"@, config.email),
        !text::occurs("{staging_flag}"@, config.email),
        !text::occurs("{staging_flag}"@, config.cert_dir),
    ensures
        config.acme_command(None) == "certbot certonly --webroot -w "@ + config.cert_dir + " -d "@
            + config.domain + " --email "@ + config.email + " --agree-tos --non-interactive "@
            + config.staging_flag(),
{
    law_default_command(config);
    text::law_replaced_without_occurrence(config.domain, "{email}"@, config.email);
    text::law_replaced_without_occurrence(config.domain, "{cert_dir}"@, config.cert_dir);
    text::law_replaced_without_occurrence(
        config.domain,
        "{staging_flag}"@,
        config.staging_flag(),
    );
    text::law_replaced_without_occurrence(config.email, "{cert_dir}"@, config.cert_dir);
    text::law_replaced_without_occurrence(config.email, "{staging_flag}"@, config.staging_flag());
    text::law_replaced_without_occurrence(
        config.cert_dir,
        "{staging_flag}"@,
        config.staging_flag(),
    );
    let words = default_words(
        config.cert_dir,
        config.domain,
        config.email,
        config.staging_flag(),
    );
    lemma_spaced_eight(words);
    reveal_strlit("certbot certonly --webroot -w");
    reveal_strlit("certbot certonly --webroot -w ");
    reveal_strlit("-d");
    reveal_strlit(" -d ");
    reveal_strlit("--email");
    reveal_strlit(" --email ");
    reveal_strlit("--agree-tos --non-interactive");
    reveal_strlit(" --agree-tos --non-interactive ");
    assert(words[0] + seq![' '] =~= "certbot certonly --webroot -w "@);
    assert(seq![' '] + words[2] + seq![' '] =~= " -d "@);
    assert(seq![' '] + words[4] + seq![' '] =~= " --email "@);
    assert(seq![' '] + words[6] + seq![' '] =~= " --agree-tos --non-interactive "@);
    assert(text::spaced(words) =~= (words[0] + seq![' ']) + words[1] + (seq![' '] + words[2]
        + seq![' ']) + words[3] + (seq![' '] + words[4] + seq![' ']) + words[5] + (seq![' ']
        + words[6] + seq![' ']) + words[7]);
}

/// A template without placeholders is the command as it stands.
pub proof fn law_plain_template(config: LetsEncryptView, template: Seq<char>)
    requires
        !text::occurs("{domain}"@, template),
        !text::occurs("{email}"@, template),
        !text::occurs("{cert_dir}"@, template),
        !text::occurs("{staging_flag}"@, template),
    ensures
        config.acme_command(Some(template)) == template,
{
    text::law_replaced_without_occurrence(template, "{domain}"@, config.domain);
    text::law_replaced_without_occurrence(template, "{email}"@, config.email);
    text::law_replaced_without_occurrence(template, "{cert_dir}"@, config.cert_dir);
    text::law_replaced_without_occurrence(
        template,
        "{staging_flag}"@,
        config.staging_flag(),
    );
}

/// Each file has its name in the certificate directory, and certbot's files
/// have theirs in the domain's directory.
pub proof fn law_places_of_the_files(config: LetsEncryptView)
    ensures
        config.metadata_path() == paths::joined(config.cert_dir, "cert_metadata.json"@),
        config.local_cert() == paths::joined(config.cert_dir, "cert.pem"@),
        config.local_key() == paths::joined(config.cert_dir, "key.pem"@),
        config.live_cert() == paths::joined(
            paths::joined("/etc/letsencrypt/live"@, config.domain),
            "fullchain.pem"@,
        ),
        config.live_key() == paths::joined(
            paths::joined("/etc/letsencrypt/live"@, config.domain),
            "privkey.pem"@,
        ),
        config.cert_dir.len() > 0 ==> {
            let dir = if config.cert_dir.last() == '/' {
                config.cert_dir
            } else {
                config.cert_dir.push('/')
            };
            &&& config.metadata_path() == dir + "cert_metadata.json"@
            &&& config.local_cert() == dir + "cert.pem"@
            &&& config.local_key() == dir + "key.pem"@
        },
        config.domain.len() > 0 && config.domain[0] != '/' && config.domain.last() != '/' ==> {
            &&& config.live_cert() == "/etc/letsencrypt/live/"@ + config.domain + "/fullchain.pem"@
            &&& config.live_key() == "/etc/letsencrypt/live/"@ + config.domain + "/privkey.pem"@
        },
{
    reveal_strlit("cert_metadata.json");
    reveal_strlit("cert.pem");
    reveal_strlit("key.pem");
    reveal_strlit("/etc/letsencrypt/live");
    reveal_strlit("/etc/letsencrypt/live/");
    reveal_strlit("fullchain.pem");
    reveal_strlit("/fullchain.pem");
    reveal_strlit("privkey.pem");
    reveal_strlit("/privkey.pem");
    if config.cert_dir.len() > 0 {
        let dir = config.cert_dir.push('/');
        assert(config.cert_dir + seq!['/'] == dir);
    }
    if config.domain.len() > 0 && config.domain[0] != '/' && config.domain.last() != '/' {
        let dir = paths::joined("/etc/letsencrypt/live"@, config.domain);
        assert(dir =~= "/etc/letsencrypt/live/"@ + config.domain);
        assert(dir.last() == config.domain.last());
        assert(config.live_cert() =~= dir + "/fullchain.pem"@);
        assert(config.live_key() =~= dir + "/privkey.pem"@);
    }
}

/// Files that are about to replace others stand beside them, under names of
/// their own.
pub proof fn law_next_files_stand_aside(config: LetsEncryptView)
    ensures
        config.next_cert() == config.local_cert() + ".new"@,
        config.next_key() == config.local_key() + ".new"@,
{
    reveal_strlit("cert.pem");
    reveal_strlit("cert.pem.new");
    reveal_strlit("key.pem");
    reveal_strlit("key.pem.new");
    reveal_strlit(".new");
    assert(config.next_cert() =~= config.local_cert() + ".new"@);
    assert(config.next_key() =~= config.local_key() + ".new"@);
}

/// Pieces of text, one after the other.
pub open spec fn concatenated(pieces: Seq<Seq<char>>) -> Seq<char>
    decreases pieces.len(),
{
    if pieces.len() == 0 {
        Seq::empty()
    } else {
        pieces[0] + concatenated(pieces.skip(1))
    }
}

/// Whether a piece of a template is a placeholder.
pub open spec fn is_placeholder(piece: Seq<char>) -> bool {
    ||| piece == "{domain}"@
    ||| piece == "{email}"@
    ||| piece == "{cert_dir}"@
    ||| piece == "{staging_flag}"@
}

/// What a piece of a template becomes: the value that it stands for, or itself.
pub open spec fn value_of(config: LetsEncryptView, piece: Seq<char>) -> Seq<char> {
    if piece == "{domain}"@ {
        config.domain
    } else if piece == "{email}"@ {
        config.email
    } else if piece == "{cert_dir}"@ {
        config.cert_dir
    } else if piece == "{staging_flag}"@ {
        if config.use_staging {
            "--staging"@
        } else {
            ""@
        }
    } else {
        piece
    }
}

/// Each piece with one placeholder filled in.
spec fn filled_each(pieces: Seq<Seq<char>>, pat: Seq<char>, with: Seq<char>) -> Seq<Seq<char>> {
    pieces.map_values(
        |piece: Seq<char>|
            if piece == pat {
                with
            } else {
                piece
            },
    )
}

/// Whether no placeholder stands in a text, nor begins at its end.
pub open spec fn is_literal(piece: Seq<char>) -> bool {
    forall|pat: Seq<char>, i: int|
        #![trigger is_placeholder(pat), piece.skip(i)]
        is_placeholder(pat) && 0 <= i < piece.len() ==> !pat.is_prefix_of(piece.skip(i))
            && !piece.skip(i).is_prefix_of(pat)
}

/// Whether a piece of a template is a placeholder or has none.
spec fn is_plain_piece(piece: Seq<char>) -> bool {
    is_placeholder(piece) || is_literal(piece)
}

/// A text without an opening brace has no placeholder.
pub proof fn law_text_without_braces_is_literal(piece: Seq<char>)
    requires
        !piece.contains('{'),
    ensures
        is_literal(piece),
{
    assert forall|pat: Seq<char>, i: int|
        #![trigger is_placeholder(pat), piece.skip(i)]
        is_placeholder(pat) && 0 <= i < piece.len() implies !pat.is_prefix_of(piece.skip(i))
        && !piece.skip(i).is_prefix_of(pat) by {
        lemma_placeholder_shape(pat);
        let rest = piece.skip(i);
        assert(piece.contains(piece[i]));
        assert(rest[0] == piece[i]);
        if pat.is_prefix_of(rest) {
            assert(rest.subrange(0, pat.len() as int)[0] == rest[0]);
        }
        if rest.is_prefix_of(pat) {
            assert(pat.subrange(0, rest.len() as int)[0] == pat[0]);
        }
    }
}

/// A placeholder is a brace, characters other than braces, and a brace.
proof fn lemma_placeholder_shape(piece: Seq<char>)
    requires
        is_placeholder(piece),
    ensures
        piece.len() > 2,
        piece[0] == '{',
        piece.last() == '}',
        forall|i: int| 0 < i < piece.len() ==> piece[i] != '{',
        forall|i: int| 0 <= i < piece.len() - 1 ==> piece[i] != '}',
        !piece.skip(1).contains('{'),
{
    reveal_strlit("{domain}");
    reveal_strlit("{email}");
    reveal_strlit("{cert_dir}");
    reveal_strlit("{staging_flag}");
}

/// A placeholder is replaced in a piece by itself.
proof fn lemma_piece(piece: Seq<char>, pat: Seq<char>, with: Seq<char>)
    requires
        is_plain_piece(piece),
        is_placeholder(pat),
    ensures
        text::replaced(piece, pat, with) == if piece == pat {
            with
        } else {
            piece
        },
{
    lemma_placeholder_shape(pat);
    if piece == pat {
        text::lemma_replaced_pattern(pat, with);
    } else if is_placeholder(piece) {
        lemma_placeholder_shape(piece);
        assert forall|i: int| 0 <= i <= piece.len() implies !pat.is_prefix_of(
            #[trigger] piece.skip(i),
        ) by {
            let rest = piece.skip(i);
            if pat.is_prefix_of(rest) {
                assert(rest[0] == rest.subrange(0, pat.len() as int)[0]);
                assert(piece[i] == '{');
                assert(i == 0);
                assert(rest == piece);
                let n = pat.len() - 1;
                assert(piece.subrange(0, pat.len() as int)[n] == pat[n]);
                assert(piece[n] == '}');
                assert(piece.subrange(0, pat.len() as int) == piece);
            }
        }
        text::law_replaced_without_occurrence(piece, pat, with);
    } else {
        assert forall|i: int| 0 <= i <= piece.len() implies !pat.is_prefix_of(
            #[trigger] piece.skip(i),
        ) by {
            if i < piece.len() {
                assert(is_placeholder(pat));
            }
        }
        text::law_replaced_without_occurrence(piece, pat, with);
    }
}

/// One placeholder is filled in, piece by piece.
proof fn lemma_fill_pieces(pieces: Seq<Seq<char>>, pat: Seq<char>, with: Seq<char>)
    requires
        is_placeholder(pat),
        forall|i: int| 0 <= i < pieces.len() ==> is_plain_piece(#[trigger] pieces[i]),
    ensures
        text::replaced(concatenated(pieces), pat, with) == concatenated(
            filled_each(pieces, pat, with),
        ),
    decreases pieces.len(),
{
    let filled = filled_each(pieces, pat, with);
    lemma_placeholder_shape(pat);
    if pieces.len() > 0 {
        let head = pieces[0];
        let tail = pieces.skip(1);
        let b = concatenated(tail);
        assert forall|i: int| 0 <= i < tail.len() implies is_plain_piece(#[trigger] tail[i]) by {
            assert(tail[i] == pieces[i + 1]);
        }
        lemma_fill_pieces(tail, pat, with);
        assert(filled.skip(1) == filled_each(tail, pat, with));
        assert(is_plain_piece(head));
        assert forall|i: int|
            0 <= i < head.len() && pat.is_prefix_of(#[trigger] (head + b).skip(i)) implies i
            + pat.len() <= head.len() by {
            let rest = (head + b).skip(i);
            let own = head.skip(i);
            if pat.len() > own.len() {
                assert(pat.subrange(0, own.len() as int) == own) by {
                    assert forall|j: int| 0 <= j < own.len() implies pat[j] == own[j] by {
                        assert(rest.subrange(0, pat.len() as int)[j] == rest[j]);
                    }
                }
                assert(own.is_prefix_of(pat));
                if is_placeholder(head) {
                    lemma_placeholder_shape(head);
                    let n = own.len() - 1;
                    assert(own[n] == head.last());
                    assert(pat[n] == '}');
                } else {
                    assert(is_placeholder(pat));
                }
            }
        }
        text_laws::lemma_replaced_apart(head, b, pat, with);
        lemma_piece(head, pat, with);
    }
}

/// A text without placeholders is none.
proof fn lemma_literal_is_no_placeholder(piece: Seq<char>)
    requires
        is_literal(piece),
    ensures
        !is_placeholder(piece),
{
    if is_placeholder(piece) {
        lemma_placeholder_shape(piece);
        assert(piece.skip(0) == piece);
        assert(piece.is_prefix_of(piece.skip(0)));
    }
}

/// A template made of placeholders and of text without them becomes the command
/// in which each placeholder is replaced by its value, everywhere, and nothing
/// else is changed.
pub proof fn law_template_is_filled_in(config: LetsEncryptView, pieces: Seq<Seq<char>>)
    requires
        is_literal(config.domain),
        is_literal(config.email),
        is_literal(config.cert_dir),
        forall|i: int|
            0 <= i < pieces.len() ==> is_placeholder(#[trigger] pieces[i]) || is_literal(pieces[i]),
    ensures
        config.acme_command(Some(concatenated(pieces))) == concatenated(
            pieces.map_values(|piece: Seq<char>| value_of(config, piece)),
        ),
{
    reveal_strlit("{domain}");
    reveal_strlit("{email}");
    reveal_strlit("{cert_dir}");
    reveal_strlit("{staging_flag}");
    reveal_strlit("--staging");
    reveal_strlit("");
    let flag = config.staging_flag();
    law_text_without_braces_is_literal(flag);
    let p1 = filled_each(pieces, "{domain}"@, config.domain);
    let p2 = filled_each(p1, "{email}"@, config.email);
    let p3 = filled_each(p2, "{cert_dir}"@, config.cert_dir);
    let p4 = filled_each(p3, "{staging_flag}"@, flag);
    assert forall|i: int| 0 <= i < pieces.len() implies is_plain_piece(#[trigger] pieces[i]) by {
    }
    lemma_fill_pieces(pieces, "{domain}"@, config.domain);
    assert forall|i: int| 0 <= i < p1.len() implies is_plain_piece(#[trigger] p1[i]) by {
        assert(is_plain_piece(pieces[i]));
    }
    lemma_fill_pieces(p1, "{email}"@, config.email);
    assert forall|i: int| 0 <= i < p2.len() implies is_plain_piece(#[trigger] p2[i]) by {
        assert(is_plain_piece(p1[i]));
    }
    lemma_fill_pieces(p2, "{cert_dir}"@, config.cert_dir);
    assert forall|i: int| 0 <= i < p3.len() implies is_plain_piece(#[trigger] p3[i]) by {
        assert(is_plain_piece(p2[i]));
    }
    lemma_fill_pieces(p3, "{staging_flag}"@, flag);
    let values = pieces.map_values(|piece: Seq<char>| value_of(config, piece));
    assert forall|i: int| 0 <= i < pieces.len() implies #[trigger] values[i] == p4[i] by {
        let piece = pieces[i];
        assert(is_plain_piece(piece));
        assert("{domain}"@[1] == 'd' && "{email}"@[1] == 'e' && "{cert_dir}"@[1] == 'c'
            && "{staging_flag}"@[1] == 's');
        lemma_literal_is_no_placeholder(config.domain);
        lemma_literal_is_no_placeholder(config.email);
        lemma_literal_is_no_placeholder(config.cert_dir);
        lemma_literal_is_no_placeholder(flag);
    }
    assert(values == p4);
}

/// Whatever the template and the values hold, the placeholders are filled in one
/// after the other: the domain, the email, the certificate directory, and the
/// flag for the staging service. So what a value brings with it is filled in
/// where its turn comes later, and stays where it has passed.
pub proof fn law_placeholders_are_filled_in_in_turn(config: LetsEncryptView, template: Seq<char>)
    ensures
        ({
            let by_domain = text::replaced(template, "{domain}"@, config.domain);
            let by_email = text::replaced(by_domain, "{email}"@, config.email);
            let by_dir = text::replaced(by_email, "{cert_dir}"@, config.cert_dir);
            let flag = if config.use_staging {
                "--staging"@
            } else {
                ""@
            };
            config.acme_command(Some(template)) == text::replaced(
                by_dir,
                "{staging_flag}"@,
                flag,
            )
        }),
{
}

/// Whether renewal can begin within the calendar, by numbers.
pub proof fn law_renewal_threshold_exists(metadata: MetadataView)
    requires
        metadata.wf(),
    ensures
        metadata.has_renewal_threshold() <==> (metadata.expires_at.secs - 2_592_000) * 1_000_000_000
            + metadata.expires_at.nanos >= -8_334_601_228_800 * 1_000_000_000,
{
}

} // verus!

//! The mobile setup page served at `/`, and HTML escaping.

use vstd::prelude::*;

use crate::text::{append_str, push_char};

verus! {

/// The setup page up to the place where the PAC URL is shown.
pub const SETUP_PAGE_HEAD: &'static str = "<!DOCTYPE html>
<html lang=\"tr\">
<head>
<meta charset=\"UTF-8\">
<meta name=\"viewport\" content=\"width=device-width, initial-scale=1, maximum-scale=1, user-scalable=0\">
<title>XzualDPI - Setup</title>
<style>
:root {
    --bg: #09090b;
    --card: #18181b;
    --accent: #3b82f6;
    --accent-glow: rgba(59, 130, 246, 0.3);
    --text: #ffffff;
    --text-dim: #a1a1aa;
    --success: #10b981;
}
* { box-sizing: border-box; margin: 0; padding: 0; font-family: 'Inter', system-ui, -apple-system, sans-serif; }
body { 
    background-color: var(--bg); 
    color: var(--text); 
    display: flex; 
    flex-direction: column; 
    align-items: center; 
    min-height: 100vh; 
    padding: 20px;
    background-image: radial-gradient(circle at top right, rgba(59, 130, 246, 0.05), transparent);
}
.container { width: 100%; max-width: 400px; }
.header { text-align: center; margin-bottom: 30px; margin-top: 20px; }
.logo-icon { font-size: 40px; margin-bottom: 10px; filter: drop-shadow(0 0 10px var(--accent-glow)); }
.title { font-size: 24px; font-weight: 800; letter-spacing: -0.5px; }
.subtitle { font-size: 14px; color: var(--text-dim); margin-top: 5px; }

.card { 
    background: var(--card); 
    border: 1px solid rgba(255,255,255,0.1); 
    border-radius: 24px; 
    padding: 24px; 
    box-shadow: 0 20px 40px rgba(0,0,0,0.4);
}
.card-title { font-weight: 700; margin-bottom: 20px; display: flex; align-items: center; gap: 10px; font-size: 16px; }

.input-box {
    background: #27272a;
    border: 1px solid #3f3f46;
    border-radius: 12px;
    padding: 14px;
    color: var(--accent);
    font-family: monospace;
    font-size: 14px;
    word-break: break-all;
    margin-bottom: 15px;
    text-align: center;
}

.btn {
    width: 100%;
    padding: 14px;
    border-radius: 12px;
    border: none;
    background: var(--accent);
    color: white;
    font-weight: 700;
    cursor: pointer;
    transition: all 0.2s;
    box-shadow: 0 4px 12px var(--accent-glow);
}
.btn:active { transform: scale(0.98); }
.btn.success { background: var(--success); box-shadow: 0 4px 12px rgba(16, 185, 129, 0.3); }

.steps { margin-top: 30px; list-style: none; }
.step { display: flex; gap: 15px; margin-bottom: 20px; }
.step-num { 
    flex: none; 
    width: 24px; 
    height: 24px; 
    background: rgba(255,255,255,0.1); 
    border-radius: 50%; 
    display: flex; 
    align-items: center; 
    justify-content: center; 
    font-size: 12px; 
    font-weight: 800;
}
.step-text b { display: block; font-size: 14px; margin-bottom: 4px; color: var(--text); }
.step-text p { font-size: 13px; color: var(--text-dim); line-height: 1.4; }

.footer { margin-top: auto; padding: 30px; font-size: 12px; color: var(--text-dim); text-align: center; }
</style>
</head>
<body>
    <div class=\"container\">
        <header class=\"header\">
            <div class=\"logo-icon\">ğŸ›¡ï¸</div>
            <h1 class=\"title\">XzualDPI</h1>
            <p class=\"subtitle\" data-tr=\"Mobil Kurulum SayfasÄ±\" data-en=\"Mobile Setup Page\">Mobil Kurulum SayfasÄ±</p>
        </header>

        <div class=\"card\">
            <div class=\"card-title\">ğŸ“± <span data-tr=\"Otomatik YapÄ±landÄ±rma\" data-en=\"Auto Config\">Otomatik YapÄ±landÄ±rma</span></div>
            <div class=\"input-box\" id=\"url-box\">";

/// The setup page after the PAC URL.
pub const SETUP_PAGE_TAIL: &'static str = "</div>
            <button class=\"btn\" id=\"copy-btn\" data-tr=\"Adresi Kopyala\" data-en=\"Copy Address\">Adresi Kopyala</button>
            
            <div class=\"steps\">
                <div class=\"step\">
                    <div class=\"step-num\">1</div>
                    <div class=\"step-text\">
                        <b data-tr=\"Wi-Fi AyarlarÄ±na Gidin\" data-en=\"Go to Wi-Fi Settings\">Wi-Fi AyarlarÄ±na Gidin</b>
                        <p data-tr=\"BaÄŸlÄ± olduÄŸunuz aÄŸÄ±n yanÄ±ndaki Ayarlar simgesine dokunun.\" data-en=\"Tap the Settings icon next to your connected network.\">BaÄŸlÄ± olduÄŸunuz aÄŸÄ±n yanÄ±ndaki Ayarlar simgesine dokunun.</p>
                    </div>
                </div>
                <div class=\"step\">
                    <div class=\"step-num\">2</div>
                    <div class=\"step-text\">
                        <b data-tr=\"Proxy'yi Otomatik YapÄ±n\" data-en=\"Set Proxy to Automatic\">Proxy'yi Otomatik YapÄ±n</b>
                        <p data-tr=\"Proxy ayarÄ±nÄ± 'Otomatik' veya 'PAC' olarak deÄŸiÅŸtirin.\" data-en=\"Change Proxy setting to 'Automatic' or 'PAC'.\">Proxy ayarÄ±nÄ± 'Otomatik' veya 'PAC' olarak deÄŸiÅŸtirin.</p>
                    </div>
                </div>
                <div class=\"step\">
                    <div class=\"step-num\">3</div>
                    <div class=\"step-text\">
                        <b data-tr=\"URL'yi YapÄ±ÅŸtÄ±rÄ±n\" data-en=\"Paste the URL\">URL'yi YapÄ±ÅŸtÄ±rÄ±n</b>
                        <p data-tr=\"YukarÄ±daki kopyaladÄ±ÄŸÄ±nÄ±z adresi PAC URL kÄ±smÄ±na yapÄ±ÅŸtÄ±rÄ±p kaydedin.\" data-en=\"Paste the copied address into the PAC URL field and save.\">YukarÄ±daki kopyaladÄ±ÄŸÄ±nÄ±z adresi PAC URL kÄ±smÄ±na yapÄ±ÅŸtÄ±rÄ±p kaydedin.</p>
                    </div>
                </div>
            </div>
        </div>

        <div class=\"footer\">
            &copy; 2024 XzualDPI Premium â€¢ Consolas
        </div>
    </div>

    <script>
        const url = document.getElementById('url-box').innerText;
        const btn = document.getElementById('copy-btn');
        
        btn.onclick = () => {
            navigator.clipboard.writeText(url).then(() => {
                const originalText = btn.innerText;
                btn.innerText = 'âœ“ KopyalandÄ±!';
                btn.classList.add('success');
                setTimeout(() => {
                    btn.innerText = originalText;
                    btn.classList.remove('success');
                }, 2000);
            });
        };
    </script>
</body>
</html>";

/// The setup page showing `pac_url` (inserted as it is).
pub open spec fn setup_page(pac_url: Seq<char>) -> Seq<char> {
    SETUP_PAGE_HEAD@ + pac_url + SETUP_PAGE_TAIL@
}

/// The HTML setup page that tells a phone user how to enter the PAC URL.
pub fn make_setup_html(pac_url: &str) -> (s: String)
    ensures
        s@ == setup_page(pac_url@),
{
    let mut s = String::new();
    append_str(&mut s, SETUP_PAGE_HEAD);
    append_str(&mut s, pac_url);
    append_str(&mut s, SETUP_PAGE_TAIL);
    assert(s@ =~= setup_page(pac_url@));
    s
}

/// The HTML text for one character: `&`, `<`, `>` and `"` become entities.
pub open spec fn escape_char(c: char) -> Seq<char> {
    if c == '&' {
        "&amp;"@
    } else if c == '<' {
        "&lt;"@
    } else if c == '>' {
        "&gt;"@
    } else if c == '"' {
        "&quot;"@
    } else {
        seq![c]
    }
}

/// `s` with every character replaced by its HTML text.
pub open spec fn escape_html(s: Seq<char>) -> Seq<char>
    decreases s.len(),
{
    if s.len() == 0 {
        Seq::empty()
    } else {
        escape_html(s.drop_last()) + escape_char(s.last())
    }
}

/// Escapes `&`, `<`, `>` and `"` for use inside HTML.
pub fn html_escape(s: &str) -> (r: String)
    ensures
        r@ == escape_html(s@),
{
    let cs = crate::text::chars_of(s);
    let mut r = String::new();
    let mut i: usize = 0;
    assert(cs@.take(0) =~= Seq::<char>::empty());
    while i < cs.len()
        invariant
            i <= cs@.len(),
            cs@ == s@,
            r@ == escape_html(cs@.take(i as int)),
        decreases cs@.len() - i,
    {
        let c = cs[i];
        let ghost before = r@;
        if c == '&' {
            append_str(&mut r, "&amp;");
        } else if c == '<' {
            append_str(&mut r, "&lt;");
        } else if c == '>' {
            append_str(&mut r, "&gt;");
        } else if c == '"' {
            append_str(&mut r, "&quot;");
        } else {
            push_char(&mut r, c);
        }
        assert(r@ == before + escape_char(c));
        assert(cs@.take(i + 1).drop_last() == cs@.take(i as int));
        i += 1;
    }
    assert(cs@.take(cs@.len() as int) == cs@);
    r
}

/// The escaped text holds no `<`, `>` or `"`, so it cannot open a tag or
/// close an attribute.
pub proof fn lemma_escaped_has_no_markup(s: Seq<char>)
    ensures
        forall|i: int|
            0 <= i < escape_html(s).len() ==> {
                let c = #[trigger] escape_html(s)[i];
                c != '<' && c != '>' && c != '"'
            },
    decreases s.len(),
{
    reveal_strlit("&amp;");
    reveal_strlit("&lt;");
    reveal_strlit("&gt;");
    reveal_strlit("&quot;");
    if s.len() > 0 {
        lemma_escaped_has_no_markup(s.drop_last());
        let a = escape_html(s.drop_last());
        let b = escape_char(s.last());
        assert forall|i: int| 0 <= i < escape_html(s).len() implies {
            let c = #[trigger] escape_html(s)[i];
            c != '<' && c != '>' && c != '"'
        } by {
            if i < a.len() {
                assert(escape_html(s)[i] == a[i]);
            } else {
                assert(escape_html(s)[i] == b[i - a.len()]);
            }
        }
    }
}

} // verus!

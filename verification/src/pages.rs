//! The pages and the script that the server itself serves.

use vstd::prelude::*;
use vstd::string::StringExecFns;

verus! {

/// The bootstrap page up to the place of the secret.
pub const BOOTSTRAP_HEAD: &'static str = r#"<!doctype html>
<html lang="en">
<head>
  <meta charset="utf-8" />
  <title>tbl – bootstrapping…</title>
  <meta name="viewport" content="width=device-width, initial-scale=1" />
  <style>
    :root {
      color-scheme: light dark;
      --bg: #0b1020;
      --fg: #f5f5f7;
      --accent: #4f46e5;
      --accent-soft: rgba(79,70,229,0.16);
      --border-subtle: rgba(148,163,184,0.35);
    }
    * {
      box-sizing: border-box;
      font-family: system-ui, -apple-system, BlinkMacSystemFont, "SF Pro Text",
                   "Segoe UI", sans-serif;
    }
    body {
      margin: 0;
      min-height: 100vh;
      display: flex;
      align-items: center;
      justify-content: center;
      background: radial-gradient(circle at top, #1e293b, #020617 55%);
      color: var(--fg);
    }
    .card {
      background: rgba(15,23,42,0.95);
      border-radius: 18px;
      padding: 24px 28px;
      box-shadow: 0 18px 40px rgba(15,23,42,0.85);
      max-width: 420px;
      width: 100%;
      border: 1px solid var(--border-subtle);
      backdrop-filter: blur(18px);
    }
    .badge {
      display: inline-flex;
      align-items: center;
      gap: 8px;
      font-size: 11px;
      text-transform: uppercase;
      letter-spacing: 0.12em;
      padding: 4px 10px;
      border-radius: 999px;
      background: var(--accent-soft);
      color: #c7d2fe;
    }
    .pill-dot {
      width: 6px;
      height: 6px;
      border-radius: 999px;
      background: #22c55e;
      box-shadow: 0 0 0 4px rgba(34,197,94,0.35);
    }
    h1 {
      margin: 14px 0 6px;
      font-size: 22px;
      font-weight: 600;
    }
    p {
      margin: 6px 0 0;
      font-size: 13px;
      opacity: 0.8;
    }
    .spinner {
      margin-top: 18px;
      width: 26px;
      height: 26px;
      border-radius: 999px;
      border: 3px solid rgba(148,163,184,0.4);
      border-top-color: var(--accent);
      animation: spin 0.8s linear infinite;
    }
    @keyframes spin {
      to { transform: rotate(360deg); }
    }
  </style>
</head>
<body>
  <div class="card">
    <div class="badge">
      <span class="pill-dot"></span>
      <span>LOCAL SESSION</span>
    </div>
    <h1>Bootstrapping tbl</h1>
    <p>We're securing your local API and loading your workspace.</p>
    <div class="spinner"></div>
  </div>
  <script>
    (function() {
      const token = ""#;

/// The bootstrap page after the secret.
pub const BOOTSTRAP_TAIL: &'static str = r#"";
      document.cookie = "tbl_token=" + token + "; SameSite=Lax; Path=/";
      setTimeout(function() {
        window.location.replace("/");
      }, 400);
    })();
  </script>
</body>
</html>"#;

/// The page shown before any workspace is set up.
pub const SETUP_PAGE: &'static str = r#"<!doctype html>
<html lang="en">
<head>
  <meta charset="utf-8" />
  <title>tbl – first-time setup</title>
  <meta name="viewport" content="width=device-width, initial-scale=1" />
  <style>
    :root {
      color-scheme: light dark;
      --bg: #020617;
      --card: rgba(15,23,42,0.96);
      --fg: #f9fafb;
      --muted: #9ca3af;
      --accent: #6366f1;
      --accent-soft: rgba(99,102,241,0.12);
      --border-subtle: rgba(148,163,184,0.45);
      --input-bg: rgba(15,23,42,0.9);
    }
    * {
      box-sizing: border-box;
      font-family: system-ui, -apple-system, BlinkMacSystemFont, "SF Pro Text",
                   "Segoe UI", sans-serif;
    }
    body {
      margin: 0;
      min-height: 100vh;
      background:
        radial-gradient(circle at top, #1e293b, transparent 60%),
        radial-gradient(circle at bottom, #020617, #000);
      color: var(--fg);
      display: flex;
      align-items: center;
      justify-content: center;
      padding: 24px;
    }
    .shell {
      max-width: 460px;
      width: 100%;
    }
    .logo {
      display: flex;
      align-items: center;
      gap: 10px;
      margin-bottom: 12px;
    }
    .logo-mark {
      width: 26px;
      height: 26px;
      border-radius: 9px;
      background: radial-gradient(circle at 20% 0%, #a5b4fc, #4f46e5);
      box-shadow: 0 8px 22px rgba(79,70,229,0.7);
      display: flex;
      align-items: center;
      justify-content: center;
      font-size: 14px;
      font-weight: 700;
      color: #e5e7eb;
    }
    .logo-text {
      font-weight: 600;
      letter-spacing: 0.06em;
      font-size: 12px;
      text-transform: uppercase;
      color: var(--muted);
    }
    .card {
      background: var(--card);
      border-radius: 20px;
      padding: 22px 22px 20px;
      border: 1px solid var(--border-subtle);
      box-shadow:
        0 22px 50px rgba(15,23,42,0.95),
        0 0 0 1px rgba(15,23,42,0.8);
      backdrop-filter: blur(20px);
    }
    h1 {
      margin: 0 0 6px;
      font-size: 22px;
      font-weight: 600;
    }
    p {
      margin: 0 0 14px;
      font-size: 13px;
      color: var(--muted);
    }
    .field-label {
      font-size: 12px;
      margin-bottom: 6px;
      color: #e5e7eb;
    }
    input[type="text"] {
      width: 100%;
      padding: 10px 11px;
      border-radius: 11px;
      border: 1px solid rgba(148,163,184,0.7);
      background: var(--input-bg);
      color: var(--fg);
      font-size: 13px;
      outline: none;
      transition: border-color 0.15s ease, box-shadow 0.15s ease,
                  background 0.15s ease;
    }
    input[type="text"]::placeholder {
      color: rgba(148,163,184,0.9);
    }
    input[type="text"]:focus {
      border-color: var(--accent);
      box-shadow: 0 0 0 1px rgba(99,102,241,0.7);
      background: rgba(15,23,42,1);
    }
    .hint {
      font-size: 11px;
      margin-top: 6px;
      color: rgba(148,163,184,0.95);
    }
    button {
      margin-top: 16px;
      width: 100%;
      border-radius: 999px;
      border: none;
      padding: 9px 14px;
      font-size: 13px;
      font-weight: 500;
      background: linear-gradient(135deg, #4f46e5, #6366f1);
      color: white;
      cursor: pointer;
      display: inline-flex;
      align-items: center;
      justify-content: center;
      gap: 8px;
      box-shadow: 0 14px 32px rgba(79,70,229,0.6);
      transition: transform 0.07s ease, box-shadow 0.07s ease,
                  filter 0.07s ease;
    }
    button:hover {
      transform: translateY(-1px);
      box-shadow: 0 18px 40px rgba(79,70,229,0.7);
      filter: brightness(1.03);
    }
    button:active {
      transform: translateY(0);
      box-shadow: 0 10px 22px rgba(79,70,229,0.65);
    }
    .btn-icon {
      font-size: 15px;
    }
    .meta {
      margin-top: 10px;
      font-size: 11px;
      color: var(--muted);
      display: flex;
      justify-content: space-between;
      gap: 12px;
      flex-wrap: wrap;
    }
    .pill {
      padding: 3px 8px;
      border-radius: 999px;
      font-size: 10px;
      border: 1px dashed rgba(148,163,184,0.5);
      background: rgba(15,23,42,0.8);
    }
  </style>
</head>
<body>
  <div class="shell">
    <div class="logo">
      <div class="logo-mark">t</div>
      <div class="logo-text">tbl bootstrap</div>
    </div>
    <div class="card">
      <h1>Connect your workspace</h1>
      <p>Point <strong>tbl</strong> at a Git repo that contains your web UI. We'll shallow-clone it into your local config and serve it securely.</p>
      <form method="post" action="/setup">
        <label class="field-label" for="git_url">Git repository URL</label>
        <input
          id="git_url"
          type="text"
          name="git_url"
          placeholder="https://github.com/you/your-tbl-web.git"
          required
        />
        <div class="hint">
          We clone with <code>--depth 1</code> into <code>~/.config/tbl/web/</code>.
        </div>
        <button type="submit">
          <span class="btn-icon">⏎</span>
          <span>Clone &amp; launch</span>
        </button>
      </form>
      <div class="meta">
        <div>CLI &amp; ENV override: <code>--git-url</code>, <code>TBL_GIT_URL</code></div>
        <div class="pill">Single static binary • local only</div>
      </div>
    </div>
  </div>
</body>
</html>"#;

/// The helper script for pages that call the local API.
pub const TBL_JS: &'static str = r#"// tbl.js – tiny helper for tbl's local API
(function () {
  const apiBase = '/api';

  async function request(path, opts) {
    const url = apiBase + path;
    const init = Object.assign(
      {
        credentials: 'include',
        headers: {
          'Content-Type': 'application/json',
        },
      },
      opts || {}
    );

    const res = await fetch(url, init);
    if (!res.ok) {
      const text = await res.text().catch(() => '');
      throw new Error('API ' + res.status + ' ' + res.statusText + ': ' + text);
    }

    const ct = res.headers.get('content-type') || '';
    if (ct.includes('application/json')) {
      return res.json();
    }
    return res.text();
  }

  async function ping() {
    return request('/ping');
  }

  window.tblApi = {
    request,
    ping,
  };
})();"#;

/// The page shown where git is missing, up to the place of the diagnostic.
pub const GIT_REQUIRED_HEAD: &'static str = r#"<!doctype html><html><body>
            <h1>Git is required</h1>
            <pre>"#;

/// The page shown where git is missing, after the diagnostic.
pub const GIT_REQUIRED_TAIL: &'static str = r#"</pre>
            <p>Please install git and try again.</p>
            </body></html>"#;

/// The page shown where the repository could not be cloned, up to the place of the diagnostic.
pub const CLONE_FAILED_HEAD: &'static str = r#"<!doctype html><html><body>
            <h1>Failed to clone repository</h1>
            <pre>"#;

/// The page shown where the repository could not be cloned, after the diagnostic.
pub const CLONE_FAILED_TAIL: &'static str = r#"</pre>
            <p><a href="/">Back</a></p>
            </body></html>"#;

/// The page that completes the bootstrap handshake. Its script stores
/// `token` in the cookie `tbl_token` and then goes to the root path. The
/// token is written into the script as it is.
pub fn bootstrap_page_html(token: &str) -> (page: String)
    ensures
        page@ == BOOTSTRAP_HEAD@ + token@ + BOOTSTRAP_TAIL@,
{
    let mut page = String::from_str(BOOTSTRAP_HEAD);
    page.append(token);
    page.append(BOOTSTRAP_TAIL);
    page
}

/// The first-run page: a form that posts a git URL to `/setup`.
pub fn setup_page_html() -> (page: String)
    ensures
        page@ == SETUP_PAGE@,
{
    String::from_str(SETUP_PAGE)
}

/// The source of the helper script.
pub fn tbl_js() -> (script: String)
    ensures
        script@ == TBL_JS@,
{
    String::from_str(TBL_JS)
}

/// The page shown where git is missing, with the diagnostic `error` in it.
pub fn git_required_page(error: &str) -> (page: String)
    ensures
        page@ == GIT_REQUIRED_HEAD@ + error@ + GIT_REQUIRED_TAIL@,
{
    let mut page = String::from_str(GIT_REQUIRED_HEAD);
    page.append(error);
    page.append(GIT_REQUIRED_TAIL);
    page
}

/// The page shown where the repository could not be cloned, with the
/// diagnostic `error` in it.
pub fn clone_failed_page(error: &str) -> (page: String)
    ensures
        page@ == CLONE_FAILED_HEAD@ + error@ + CLONE_FAILED_TAIL@,
{
    let mut page = String::from_str(CLONE_FAILED_HEAD);
    page.append(error);
    page.append(CLONE_FAILED_TAIL);
    page
}

} // verus!

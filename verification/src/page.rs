//! The page that a participant opens.
use vstd::prelude::*;

verus! {

/// The page: it joins the session over a socket, shows the transcript, and sends
/// what the participant writes.
pub const INDEX_HTML: &'static str = r#"<!doctype html>
<html lang="en">
<head>
  <meta charset="utf-8" />
  <meta name="viewport" content="width=device-width, initial-scale=1" />
  <title>Codex multiplayer session</title>
  <style>
    :root { color-scheme: dark; }
    * { box-sizing: border-box; }
    body {
      margin: 0;
      background: #111317;
      color: #f4f4f5;
      font: 14px/1.45 ui-monospace, SFMono-Regular, Menlo, Monaco, Consolas, "Liberation Mono", monospace;
    }
    main { min-height: 100vh; display: grid; grid-template-rows: auto 1fr auto; }
    header {
      display: flex;
      align-items: center;
      justify-content: space-between;
      gap: 16px;
      padding: 12px 16px;
      border-bottom: 1px solid #2a2f3a;
      background: #181b21;
    }
    h1 { margin: 0; font-size: 14px; font-weight: 700; }
    #status { color: #cbd5e1; font-size: 12px; }
    #transcript {
      overflow: auto;
      padding: 16px;
      white-space: pre-wrap;
      word-break: break-word;
    }
    #transcript div { min-height: 1.45em; }
    form {
      display: grid;
      grid-template-columns: minmax(96px, 180px) 1fr auto;
      gap: 8px;
      padding: 12px;
      border-top: 1px solid #2a2f3a;
      background: #181b21;
    }
    input, button {
      border: 1px solid #3a4150;
      border-radius: 6px;
      background: #111317;
      color: #f4f4f5;
      font: inherit;
      min-height: 38px;
      padding: 8px 10px;
    }
    button {
      background: #2563eb;
      border-color: #2563eb;
      font-weight: 700;
      cursor: pointer;
    }
    button:disabled { opacity: 0.55; cursor: not-allowed; }
    @media (max-width: 720px) {
      form { grid-template-columns: 1fr; }
    }
  </style>
</head>
<body>
  <main>
    <header>
      <h1>Codex multiplayer session</h1>
      <div id="status">Connecting</div>
    </header>
    <section id="transcript" aria-live="polite"></section>
    <form id="form">
      <input id="name" autocomplete="name" placeholder="Name" />
      <input id="message" autocomplete="off" placeholder="Message Codex" />
      <button id="send" type="submit">Send</button>
    </form>
  </main>
  <script>
    const params = new URLSearchParams(location.search);
    const token = params.get("token") || "";
    const statusEl = document.getElementById("status");
    const transcriptEl = document.getElementById("transcript");
    const form = document.getElementById("form");
    const nameInput = document.getElementById("name");
    const messageInput = document.getElementById("message");
    const sendButton = document.getElementById("send");

    nameInput.value = localStorage.getItem("codex.multiplayer.name") || "";

    function appendLines(lines) {
      const shouldStick = transcriptEl.scrollTop + transcriptEl.clientHeight >= transcriptEl.scrollHeight - 24;
      for (const line of lines) {
        const div = document.createElement("div");
        div.textContent = line || " ";
        transcriptEl.appendChild(div);
      }
      if (shouldStick) transcriptEl.scrollTop = transcriptEl.scrollHeight;
    }

    const scheme = location.protocol === "https:" ? "wss" : "ws";
    const ws = new WebSocket(`${scheme}://${location.host}/ws?token=${encodeURIComponent(token)}`);

    ws.addEventListener("open", () => {
      statusEl.textContent = "Connected";
      sendButton.disabled = false;
    });
    ws.addEventListener("close", () => {
      statusEl.textContent = "Disconnected";
      sendButton.disabled = true;
    });
    ws.addEventListener("message", (event) => {
      const message = JSON.parse(event.data);
      if (message.type === "snapshot") {
        transcriptEl.textContent = "";
        appendLines(message.lines || []);
      } else if (message.type === "transcript") {
        appendLines(message.lines || []);
      } else if (message.type === "system") {
        appendLines([`[system] ${message.text}`]);
      }
    });

    form.addEventListener("submit", (event) => {
      event.preventDefault();
      const text = messageInput.value.trim();
      if (!text || ws.readyState !== WebSocket.OPEN) return;
      const name = nameInput.value.trim() || "Guest";
      localStorage.setItem("codex.multiplayer.name", name);
      ws.send(JSON.stringify({ type: "chat", name, text }));
      messageInput.value = "";
      messageInput.focus();
    });
  </script>
</body>
</html>
"#;

} // verus!

# egui_moon_code_ide

The deciding behind a code editor that talks to a language server: when to tell the server the
text has changed, when a half-typed word, a signature or a hover is worth a question, which
answer is still an answer when it lands, which rows of a completion answer are offered, and how
an empty answer from a server that is still reading the project reads.

`src/` is that deciding, verified with Verus: every state machine takes the moment as an
argument and says what it owes, and its contract states exactly what it becomes and what it
returns. The laws the library keeps - a burst of typing sends nothing until it stops, a file
nothing serves is never spoken of again, one question is out at a time, an answer about text
the caret has left is dropped, a starting server is never read as no server - are proof
functions beside the code they are about.

`app/` is what only a running program can hold: the `LanguageSource` trait and the registry of
servers, the worker thread the blocking questions go on, the egui widget, the clock, and the
position arithmetic that turns a caret into a place in the text.
